//! The fixed notice layout: one metering fee notice per record, page
//! breaks after every `per_page` records, and a trailing summary table on
//! its own page.
//!
//! When a record has more than one meter, the unit-price and amount columns
//! of the meter rows are merged vertically: the first row starts the merge
//! and shows the value once, the rest continue it.

use vstd::prelude::*;
use crate::billing::{MerchantBill, sum_water_amount, sum_electricity_amount, sum_total_fee,
    lemma_batch_sums_bound, lemma_wf_field_bounds, FIELD_BOUND};
use crate::doc_model::{Align, VMerge, RunSpec, ParaSpec, CellSpec, RowSpec, TableSpec, Block,
    RunM, ParaM, CellM, RowM, TableM, BlockM, blocks_view, spec_text_para, spec_empty_para,
    spec_page_break, spec_text_cell, push_text_para, push_empty_para, push_page_break,
    make_text_cell, spec_count_breaks, lemma_count_breaks_concat};
use crate::num::{spec_int_digits, int_digits_i128, spec_pad2, pad2_u128, spec_fmt_fix0_milli,
    fmt_fix0_milli, spec_fmt_fix2_milli, fmt_fix2_milli, spec_fmt_fix3_milli, fmt_fix3_milli,
    append_chars};
use crate::clock::{now_parts, spec_date_label, date_label};
use crate::rmb::{spec_rmb_from_milli, rmb_upper_from_milli};
use crate::text::str_chars;
use crate::BillError;

verus! {

/// Options for the notice layout.
pub struct GenerateOptions {
    /// A custom notice title; the default names the current year and month.
    pub custom_title: Option<String>,
    /// Records per page; zero means no pagination at all.
    pub per_page: usize,
}

/// The default notice title for a given year and month.
pub open spec fn spec_default_title(y: int, m: int) -> Seq<char> {
    spec_int_digits(y) + "年"@ + spec_pad2(m) + "月抄表计费通知单"@
}

/// Renders the default notice title.
pub fn default_title(y: i64, m: u64) -> (r: Vec<char>)
    requires
        -2_147_483_648 <= y <= 2_147_483_647,
        m <= 99,
    ensures
        r@ == spec_default_title(y as int, m as int),
{
    let mut out = int_digits_i128(y as i128);
    let part = str_chars("年");
    append_chars(&mut out, &part);
    let mm = pad2_u128(m as u128);
    append_chars(&mut out, &mm);
    let part = str_chars("月抄表计费通知单");
    append_chars(&mut out, &part);
    proof {
        assert(out@ =~= spec_default_title(y as int, m as int));
    }
    out
}

/// The identification line of one notice: shop code, merchant name, meter
/// reader and read date, tab-separated; the date defaults to today.
pub open spec fn spec_info_line(b: MerchantBill, y: int, m: int, d: int) -> Seq<char> {
    let reader = match b.meter_reader {
        Some(s) => s@,
        None => Seq::<char>::empty(),
    };
    let date = match b.meter_date {
        Some(s) => s@,
        None => spec_date_label(y, m, d),
    };
    "编号：\t"@ + b.shop_code@ + "\t姓名\t"@ + b.merchant_name@ + "\t抄表人：\t"@ + reader + "\t抄表日期："@
        + date
}

/// Renders the identification line of one notice.
pub fn info_line(b: &MerchantBill, y: i64, m: u64, d: u64) -> (r: Vec<char>)
    requires
        -2_147_483_648 <= y <= 2_147_483_647,
        m <= 99,
        d <= 99,
    ensures
        r@ == spec_info_line(*b, y as int, m as int, d as int),
{
    let mut out = str_chars("编号：\t");
    let part = str_chars(b.shop_code.as_str());
    append_chars(&mut out, &part);
    let part = str_chars("\t姓名\t");
    append_chars(&mut out, &part);
    let part = str_chars(b.merchant_name.as_str());
    append_chars(&mut out, &part);
    let part = str_chars("\t抄表人：\t");
    append_chars(&mut out, &part);
    match &b.meter_reader {
        Some(s) => {
            let part = str_chars(s.as_str());
            append_chars(&mut out, &part);
        },
        None => {},
    }
    let part = str_chars("\t抄表日期：");
    append_chars(&mut out, &part);
    match &b.meter_date {
        Some(s) => {
            let part = str_chars(s.as_str());
            append_chars(&mut out, &part);
        },
        None => {
            let part = date_label(y, m, d);
            append_chars(&mut out, &part);
        },
    }
    proof {
        assert(out@ =~= spec_info_line(*b, y as int, m as int, d as int));
    }
    out
}

/// A centered text cell in the notice's table font.
pub open spec fn spec_c12(text: Seq<char>) -> CellM {
    spec_text_cell(text, Some(12int), false, Align::Center)
}

/// A centered bold text cell in the notice's table font.
pub open spec fn spec_c12b(text: Seq<char>) -> CellM {
    spec_text_cell(text, Some(12int), true, Align::Center)
}

/// A centered cell holding empty unsized text.
pub open spec fn spec_cblank() -> CellM {
    spec_text_cell(Seq::<char>::empty(), None, false, Align::Center)
}

/// The fee table's header row.
pub open spec fn spec_header_row() -> RowM {
    RowM {
        cells: seq![
            spec_c12b("项目"@),
            spec_c12b("上月表底"@),
            spec_c12b("本月抄表数"@),
            spec_c12b("实用度数"@),
            spec_c12b("公共分摊"@),
            spec_c12b("单价（元）"@),
            spec_c12b("金额"@),
        ],
        height: None,
    }
}

/// The unit-price cell of one meter row: merged vertically over all meter
/// rows when the record has more than one meter.
pub open spec fn spec_price_cell(b: MerchantBill, i: int) -> CellM {
    if b.electricity_meters@.len() > 1 {
        if i == 0 {
            CellM {
                para: Some(
                    ParaM {
                        run: Some(
                            RunM::Text {
                                text: spec_fmt_fix2_milli(b.electricity_unit_price as int),
                                size: Some(12int),
                                bold: false,
                                color: None,
                            },
                        ),
                        align: Align::Center,
                    },
                ),
                vmerge: Some(VMerge::Restart),
                grid_span: None,
                width: None,
            }
        } else {
            CellM { para: None, vmerge: Some(VMerge::Continue), grid_span: None, width: None }
        }
    } else {
        spec_c12(spec_fmt_fix2_milli(b.electricity_unit_price as int))
    }
}

/// The amount cell of one meter row: the aggregate electricity amount,
/// merged vertically like the unit-price cell.
pub open spec fn spec_amount_cell(b: MerchantBill, i: int) -> CellM {
    if b.electricity_meters@.len() > 1 {
        if i == 0 {
            CellM {
                para: Some(
                    ParaM {
                        run: Some(
                            RunM::Text {
                                text: spec_fmt_fix0_milli(b.electricity_amount as int),
                                size: Some(12int),
                                bold: false,
                                color: None,
                            },
                        ),
                        align: Align::Center,
                    },
                ),
                vmerge: Some(VMerge::Restart),
                grid_span: None,
                width: None,
            }
        } else {
            CellM { para: None, vmerge: Some(VMerge::Continue), grid_span: None, width: None }
        }
    } else {
        spec_c12(spec_fmt_fix0_milli(b.electricity_amount as int))
    }
}

/// The label of one meter row: unnumbered when the record has one meter.
pub open spec fn spec_meter_name(n: int, i: int) -> Seq<char> {
    if n == 1 {
        "电表"@
    } else {
        "电表"@ + spec_int_digits(i + 1)
    }
}

/// One meter row.
pub open spec fn spec_meter_row(b: MerchantBill, i: int) -> RowM {
    let m = b.electricity_meters@[i];
    RowM {
        cells: seq![
            spec_c12(spec_meter_name(b.electricity_meters@.len() as int, i)),
            spec_c12(spec_fmt_fix0_milli(m.prev_reading as int)),
            spec_c12(spec_fmt_fix0_milli(m.curr_reading as int)),
            spec_c12(spec_fmt_fix0_milli(m.usage as int)),
            spec_cblank(),
            spec_price_cell(b, i),
            spec_amount_cell(b, i),
        ],
        height: None,
    }
}

/// The placeholder meter row used when a record has no meters at all.
pub open spec fn spec_no_meter_row(b: MerchantBill) -> RowM {
    RowM {
        cells: seq![
            spec_c12("电表"@),
            spec_c12("0"@),
            spec_c12("0"@),
            spec_c12("0"@),
            spec_cblank(),
            spec_c12(spec_fmt_fix2_milli(b.electricity_unit_price as int)),
            spec_c12("0"@),
        ],
        height: None,
    }
}

/// The meter rows of one record.
pub open spec fn spec_meter_rows(b: MerchantBill) -> Seq<RowM> {
    if b.electricity_meters@.len() == 0 {
        seq![spec_no_meter_row(b)]
    } else {
        Seq::new(b.electricity_meters@.len(), |i: int| spec_meter_row(b, i))
    }
}

/// The water row.
pub open spec fn spec_water_row(b: MerchantBill) -> RowM {
    RowM {
        cells: seq![
            spec_c12("水费"@),
            spec_c12(spec_fmt_fix0_milli(b.prev_water_reading as int)),
            spec_c12(spec_fmt_fix0_milli(b.curr_water_reading as int)),
            spec_c12(spec_fmt_fix0_milli(b.water_usage as int)),
            spec_cblank(),
            spec_c12(spec_fmt_fix3_milli(b.water_unit_price as int)),
            spec_c12(spec_fmt_fix0_milli(b.water_amount as int)),
        ],
        height: None,
    }
}

/// A fee row with a label and an amount in the last column.
pub open spec fn spec_fee_row(label: Seq<char>, amount: Seq<char>) -> RowM {
    RowM {
        cells: seq![
            spec_c12(label),
            spec_cblank(),
            spec_cblank(),
            spec_cblank(),
            spec_cblank(),
            spec_cblank(),
            spec_c12(amount),
        ],
        height: None,
    }
}

/// The closing totals row: the uppercase and plain renderings of the total
/// fee, spanning the value columns.
pub open spec fn spec_total_row(b: MerchantBill) -> RowM {
    RowM {
        cells: seq![
            spec_c12b("合计"@),
            CellM {
                para: Some(
                    ParaM {
                        run: Some(
                            RunM::Text {
                                text: "大写："@ + spec_rmb_from_milli(b.total_fee as int) + "    小写："@
                                    + spec_fmt_fix2_milli(b.total_fee as int),
                                size: Some(12int),
                                bold: true,
                                color: None,
                            },
                        ),
                        align: Align::Center,
                    },
                ),
                vmerge: None,
                grid_span: Some(6int),
                width: None,
            },
        ],
        height: None,
    }
}

/// The whole fee table of one record.
pub open spec fn spec_notice_table(b: MerchantBill) -> BlockM {
    BlockM::Table(
        TableM {
            rows: seq![spec_header_row()] + spec_meter_rows(b) + seq![
                spec_water_row(b),
                spec_fee_row("水电人工费"@, spec_fmt_fix2_milli(b.water_electricity_labor_fee as int)),
                spec_fee_row("垃圾处理费"@, spec_fmt_fix2_milli(b.garbage_disposal_fee as int)),
                spec_fee_row("滞纳金"@, "0.00"@),
                spec_fee_row("广告费"@, "0.00"@),
                spec_total_row(b),
            ],
            width: None,
        },
    )
}

/// The separator line between notices.
pub open spec fn spec_separator() -> Seq<char> {
    Seq::new(40, |i: int| '=')
}

/// The fixed disclaimer paragraph under each notice.
pub open spec fn spec_disclaimer() -> Seq<char> {
    "1、此单可对账不做凭证；\n\n2、每月5日前为收费时间，超期按5%收滞纳金或停电；\n\n3、以上费用如有不明或差\n请到管理处核对。"@
}

/// The block run of one record's notice: title, identification line, the
/// fee table, the disclaimer, and (before the last record) a separator and
/// a page break after every `per_page` records.
pub open spec fn spec_merchant_section(
    b: MerchantBill,
    idx: int,
    n: int,
    title: Option<Seq<char>>,
    per_page: int,
    y: int,
    m: int,
    d: int,
) -> Seq<BlockM> {
    let title_text = match title {
        Some(t) => t,
        None => spec_default_title(y, m),
    };
    seq![
        spec_text_para(title_text, Some(22int), true, None, Align::Center),
        spec_text_para(spec_info_line(b, y, m, d), Some(11int), false, None, Align::Default),
        spec_empty_para(),
        spec_notice_table(b),
        spec_empty_para(),
        spec_text_para(spec_disclaimer(), Some(9int), false, None, Align::Default),
    ] + (if idx + 1 < n {
        seq![spec_text_para(spec_separator(), None, false, None, Align::Default)] + (if per_page
            != 0 && (idx + 1) % per_page == 0 {
            seq![spec_page_break()]
        } else {
            Seq::<BlockM>::empty()
        })
    } else {
        Seq::<BlockM>::empty()
    })
}

/// The concatenated notice sections of the first `k` records.
pub open spec fn spec_sections(
    ms: Seq<MerchantBill>,
    k: int,
    title: Option<Seq<char>>,
    per_page: int,
    y: int,
    m: int,
    d: int,
) -> Seq<BlockM>
    decreases k,
{
    if k <= 0 {
        Seq::<BlockM>::empty()
    } else {
        spec_sections(ms, k - 1, title, per_page, y, m, d) + spec_merchant_section(
            ms[k - 1],
            k - 1,
            ms.len() as int,
            title,
            per_page,
            y,
            m,
            d,
        )
    }
}

/// A summary cell: plain text, bold for headers and the total row.
pub open spec fn spec_sum_cell(text: Seq<char>, bold: bool) -> CellM {
    spec_text_cell(text, None, bold, Align::Default)
}

/// One record's row in the summary table: name, combined water and
/// electricity amount, both flat fees, and the record's total.
pub open spec fn spec_summary_row(b: MerchantBill) -> RowM {
    RowM {
        cells: seq![
            spec_sum_cell(b.merchant_name@, false),
            spec_sum_cell(
                spec_fmt_fix2_milli(b.water_amount as int + b.electricity_amount as int),
                false,
            ),
            spec_sum_cell(spec_fmt_fix2_milli(b.water_electricity_labor_fee as int), false),
            spec_sum_cell(spec_fmt_fix2_milli(b.garbage_disposal_fee as int), false),
            spec_sum_cell(spec_fmt_fix2_milli(b.total_fee as int), false),
        ],
        height: None,
    }
}

/// The summed flat labor fees of a sequence of records.
pub open spec fn sum_labor_fee(s: Seq<MerchantBill>) -> int
    decreases s.len(),
{
    if s.len() == 0 {
        0
    } else {
        sum_labor_fee(s.drop_last()) + s.last().water_electricity_labor_fee
    }
}

/// The summed flat garbage fees of a sequence of records.
pub open spec fn sum_garbage_fee(s: Seq<MerchantBill>) -> int
    decreases s.len(),
{
    if s.len() == 0 {
        0
    } else {
        sum_garbage_fee(s.drop_last()) + s.last().garbage_disposal_fee
    }
}

/// The bold column-sum row closing the summary table.
pub open spec fn spec_summary_total_row(ms: Seq<MerchantBill>) -> RowM {
    RowM {
        cells: seq![
            spec_sum_cell("合计"@, true),
            spec_sum_cell(
                spec_fmt_fix2_milli(sum_water_amount(ms) + sum_electricity_amount(ms)),
                true,
            ),
            spec_sum_cell(spec_fmt_fix2_milli(sum_labor_fee(ms)), true),
            spec_sum_cell(spec_fmt_fix2_milli(sum_garbage_fee(ms)), true),
            spec_sum_cell(spec_fmt_fix2_milli(sum_total_fee(ms)), true),
        ],
        height: None,
    }
}

/// The trailing summary: a centered title and one table with a header row,
/// one row per record, and a bold column-sum row.
pub open spec fn spec_summary_blocks(ms: Seq<MerchantBill>) -> Seq<BlockM> {
    seq![
        spec_text_para("费用汇总表"@, Some(18int), true, None, Align::Center),
        BlockM::Table(
            TableM {
                rows: seq![
                    RowM {
                        cells: seq![
                            spec_sum_cell("店铺名称"@, true),
                            spec_sum_cell("水电费合计（元）"@, true),
                            spec_sum_cell("水电人工费"@, true),
                            spec_sum_cell("垃圾处理费"@, true),
                            spec_sum_cell("总价"@, true),
                        ],
                        height: None,
                    },
                ] + Seq::new(ms.len(), |i: int| spec_summary_row(ms[i])) + seq![
                    spec_summary_total_row(ms),
                ],
                width: None,
            },
        ),
    ]
}

/// The whole notice document: every record's section, a page break, and
/// the summary on its own page.
pub open spec fn spec_notice_doc(
    ms: Seq<MerchantBill>,
    title: Option<Seq<char>>,
    per_page: int,
    y: int,
    m: int,
    d: int,
) -> Seq<BlockM> {
    spec_sections(ms, ms.len() as int, title, per_page, y, m, d) + seq![spec_page_break()]
        + spec_summary_blocks(ms)
}


/// The views of a row list.
pub open spec fn rows_view(s: Seq<RowSpec>) -> Seq<RowM> {
    Seq::new(s.len(), |i: int| s[i]@)
}

/// Builds a seven-cell row without a fixed height.
fn make_row7(
    c0: CellSpec,
    c1: CellSpec,
    c2: CellSpec,
    c3: CellSpec,
    c4: CellSpec,
    c5: CellSpec,
    c6: CellSpec,
) -> (r: RowSpec)
    ensures
        r@ == (RowM { cells: seq![c0@, c1@, c2@, c3@, c4@, c5@, c6@], height: None }),
{
    let mut cells: Vec<CellSpec> = Vec::new();
    let ghost views = seq![c0@, c1@, c2@, c3@, c4@, c5@, c6@];
    cells.push(c0);
    cells.push(c1);
    cells.push(c2);
    cells.push(c3);
    cells.push(c4);
    cells.push(c5);
    cells.push(c6);
    let r = RowSpec { cells, height: None };
    proof {
        assert(r@ =~~= (RowM { cells: views, height: None }));
    }
    r
}

/// Builds a five-cell row without a fixed height.
fn make_row5(c0: CellSpec, c1: CellSpec, c2: CellSpec, c3: CellSpec, c4: CellSpec) -> (r: RowSpec)
    ensures
        r@ == (RowM { cells: seq![c0@, c1@, c2@, c3@, c4@], height: None }),
{
    let mut cells: Vec<CellSpec> = Vec::new();
    let ghost views = seq![c0@, c1@, c2@, c3@, c4@];
    cells.push(c0);
    cells.push(c1);
    cells.push(c2);
    cells.push(c3);
    cells.push(c4);
    let r = RowSpec { cells, height: None };
    proof {
        assert(r@ =~~= (RowM { cells: views, height: None }));
    }
    r
}

/// A centered text cell in the notice's table font.
fn c12(text: Vec<char>) -> (r: CellSpec)
    ensures
        r@ == spec_c12(text@),
{
    make_text_cell(text, Some(12), false, Align::Center)
}

/// A centered bold text cell in the notice's table font.
fn c12b(text: &str) -> (r: CellSpec)
    ensures
        r@ == spec_c12b(text@),
{
    make_text_cell(str_chars(text), Some(12), true, Align::Center)
}

/// A centered cell holding empty unsized text.
fn cblank() -> (r: CellSpec)
    ensures
        r@ == spec_cblank(),
{
    let v: Vec<char> = Vec::new();
    make_text_cell(v, None, false, Align::Center)
}

/// A merged cell: the first row of a merge shows the text, later rows only
/// continue the merge.
fn merged_cell(text: Vec<char>, first: bool) -> (r: CellSpec)
    ensures
        first ==> r@ == (CellM {
            para: Some(
                ParaM {
                    run: Some(
                        RunM::Text { text: text@, size: Some(12int), bold: false, color: None },
                    ),
                    align: Align::Center,
                },
            ),
            vmerge: Some(VMerge::Restart),
            grid_span: None,
            width: None,
        }),
        !first ==> r@ == (CellM {
            para: None,
            vmerge: Some(VMerge::Continue),
            grid_span: None,
            width: None,
        }),
{
    if first {
        let t = crate::text::chars_to_string(&text);
        CellSpec {
            para: Some(
                ParaSpec {
                    run: Some(RunSpec::Text { text: t, size: Some(12), bold: false, color: None }),
                    align: Align::Center,
                },
            ),
            vmerge: Some(VMerge::Restart),
            grid_span: None,
            width: None,
        }
    } else {
        CellSpec { para: None, vmerge: Some(VMerge::Continue), grid_span: None, width: None }
    }
}

/// Builds one meter row of the fee table.
fn meter_row(b: &MerchantBill, i: usize) -> (r: RowSpec)
    requires
        b.wf(),
        i < b.electricity_meters@.len(),
    ensures
        r@ == spec_meter_row(*b, i as int),
{
    proof {
        assert(crate::billing::meter_wf(
            b.electricity_meters@[i as int],
            b.electricity_unit_price as int,
        ));
        crate::billing::lemma_wf_field_bounds(*b);
    }
    let n = b.electricity_meters.len();
    let m = &b.electricity_meters[i];
    let name: Vec<char> = if n == 1 {
        str_chars("电表")
    } else {
        let mut v = str_chars("电表");
        let ds = int_digits_i128((i + 1) as i128);
        append_chars(&mut v, &ds);
        proof {
            assert(v@ =~= spec_meter_name(n as int, i as int));
        }
        v
    };
    let c0 = c12(name);
    let c1 = c12(fmt_fix0_milli(m.prev_reading as i128));
    let c2 = c12(fmt_fix0_milli(m.curr_reading as i128));
    let c3 = c12(fmt_fix0_milli(m.usage as i128));
    let c4 = cblank();
    let c5 = if n > 1 {
        merged_cell(fmt_fix2_milli(b.electricity_unit_price as i128), i == 0)
    } else {
        c12(fmt_fix2_milli(b.electricity_unit_price as i128))
    };
    let c6 = if n > 1 {
        merged_cell(fmt_fix0_milli(b.electricity_amount as i128), i == 0)
    } else {
        c12(fmt_fix0_milli(b.electricity_amount as i128))
    };
    let r = make_row7(c0, c1, c2, c3, c4, c5, c6);
    proof {
        assert(r@ =~~= spec_meter_row(*b, i as int));
    }
    r
}

/// Builds the whole fee table of one record.
#[verifier::rlimit(100)]
fn merchant_table(b: &MerchantBill) -> (t: TableSpec)
    requires
        b.wf(),
    ensures
        BlockM::Table(t@) == spec_notice_table(*b),
{
    proof {
        crate::billing::lemma_wf_field_bounds(*b);
    }
    let mut rows: Vec<RowSpec> = Vec::new();
    rows.push(
        make_row7(
            c12b("项目"),
            c12b("上月表底"),
            c12b("本月抄表数"),
            c12b("实用度数"),
            c12b("公共分摊"),
            c12b("单价（元）"),
            c12b("金额"),
        ),
    );
    proof {
        assert(rows_view(rows@) =~~= seq![spec_header_row()]);
    }
    if b.electricity_meters.len() == 0 {
        let r = make_row7(
            c12(str_chars("电表")),
            c12(str_chars("0")),
            c12(str_chars("0")),
            c12(str_chars("0")),
            cblank(),
            c12(fmt_fix2_milli(b.electricity_unit_price as i128)),
            c12(str_chars("0")),
        );
        proof {
            assert(r@ =~~= spec_no_meter_row(*b));
        }
        rows.push(r);
        proof {
            assert(rows_view(rows@) =~~= seq![spec_header_row()] + spec_meter_rows(*b));
        }
    } else {
        let n = b.electricity_meters.len();
        let mut i: usize = 0;
        while i < n
            invariant
                i <= n,
                n == b.electricity_meters@.len(),
                b.wf(),
                rows_view(rows@) == seq![spec_header_row()] + Seq::new(
                    i as nat,
                    |k: int| spec_meter_row(*b, k),
                ),
            decreases n - i,
        {
            let r = meter_row(b, i);
            let ghost prev_rows = rows@;
            rows.push(r);
            proof {
                let target = seq![spec_header_row()] + Seq::new(
                    (i + 1) as nat,
                    |k: int| spec_meter_row(*b, k),
                );
                assert(rows@ == prev_rows.push(r));
                assert forall|k: int|
                    0 <= k < rows@.len() implies rows_view(rows@)[k] == target[k] by {
                    if k < prev_rows.len() {
                        assert(rows@[k] == prev_rows[k]);
                        assert(rows_view(prev_rows)[k] == (seq![spec_header_row()] + Seq::new(
                            i as nat,
                            |k2: int| spec_meter_row(*b, k2),
                        ))[k]);
                    } else {
                        assert(rows@[k] == r);
                    }
                }
                assert(rows_view(rows@) =~= target);
            }
            i = i + 1;
        }
        proof {
            assert(rows_view(rows@) =~~= seq![spec_header_row()] + spec_meter_rows(*b));
        }
    }
    let ghost upper = seq![spec_header_row()] + spec_meter_rows(*b);
    let wr = make_row7(
        c12(str_chars("水费")),
        c12(fmt_fix0_milli(b.prev_water_reading as i128)),
        c12(fmt_fix0_milli(b.curr_water_reading as i128)),
        c12(fmt_fix0_milli(b.water_usage as i128)),
        cblank(),
        c12(fmt_fix3_milli(b.water_unit_price as i128)),
        c12(fmt_fix0_milli(b.water_amount as i128)),
    );
    proof {
        assert(wr@ =~~= spec_water_row(*b));
    }
    rows.push(wr);
    let lr = make_row7(
        c12(str_chars("水电人工费")),
        cblank(),
        cblank(),
        cblank(),
        cblank(),
        cblank(),
        c12(fmt_fix2_milli(b.water_electricity_labor_fee as i128)),
    );
    proof {
        assert(lr@ =~~= spec_fee_row(
            "水电人工费"@,
            spec_fmt_fix2_milli(b.water_electricity_labor_fee as int),
        ));
    }
    rows.push(lr);
    let gr = make_row7(
        c12(str_chars("垃圾处理费")),
        cblank(),
        cblank(),
        cblank(),
        cblank(),
        cblank(),
        c12(fmt_fix2_milli(b.garbage_disposal_fee as i128)),
    );
    proof {
        assert(gr@ =~~= spec_fee_row(
            "垃圾处理费"@,
            spec_fmt_fix2_milli(b.garbage_disposal_fee as int),
        ));
    }
    rows.push(gr);
    let zr = make_row7(
        c12(str_chars("滞纳金")),
        cblank(),
        cblank(),
        cblank(),
        cblank(),
        cblank(),
        c12(str_chars("0.00")),
    );
    proof {
        assert(zr@ =~~= spec_fee_row("滞纳金"@, "0.00"@));
    }
    rows.push(zr);
    let ar = make_row7(
        c12(str_chars("广告费")),
        cblank(),
        cblank(),
        cblank(),
        cblank(),
        cblank(),
        c12(str_chars("0.00")),
    );
    proof {
        assert(ar@ =~~= spec_fee_row("广告费"@, "0.00"@));
    }
    rows.push(ar);
    let mut total_text = str_chars("大写：");
    let upper_text = rmb_upper_from_milli(b.total_fee);
    let part = str_chars(upper_text.as_str());
    append_chars(&mut total_text, &part);
    let part = str_chars("    小写：");
    append_chars(&mut total_text, &part);
    let part = fmt_fix2_milli(b.total_fee as i128);
    append_chars(&mut total_text, &part);
    let total_string = crate::text::chars_to_string(&total_text);
    let tr = RowSpec {
        cells: {
            let mut cells: Vec<CellSpec> = Vec::new();
            cells.push(c12b("合计"));
            cells.push(
                CellSpec {
                    para: Some(
                        ParaSpec {
                            run: Some(
                                RunSpec::Text {
                                    text: total_string,
                                    size: Some(12),
                                    bold: true,
                                    color: None,
                                },
                            ),
                            align: Align::Center,
                        },
                    ),
                    vmerge: None,
                    grid_span: Some(6),
                    width: None,
                },
            );
            cells
        },
        height: None,
    };
    proof {
        assert(tr@ =~~= spec_total_row(*b));
    }
    rows.push(tr);
    let t = TableSpec { rows, width: None };
    proof {
        assert(t@.rows =~~= upper + seq![
            spec_water_row(*b),
            spec_fee_row(
                "水电人工费"@,
                spec_fmt_fix2_milli(b.water_electricity_labor_fee as int),
            ),
            spec_fee_row("垃圾处理费"@, spec_fmt_fix2_milli(b.garbage_disposal_fee as int)),
            spec_fee_row("滞纳金"@, "0.00"@),
            spec_fee_row("广告费"@, "0.00"@),
            spec_total_row(*b),
        ]);
        assert(BlockM::Table(t@) =~~= spec_notice_table(*b));
    }
    t
}

/// Appends one record's notice section to the document.
fn push_merchant_section(
    doc: &mut Vec<Block>,
    b: &MerchantBill,
    idx: usize,
    n: usize,
    custom_title: &Option<String>,
    per_page: usize,
    y: i64,
    m: u64,
    d: u64,
)
    requires
        b.wf(),
        idx < n,
        -2_147_483_648 <= y <= 2_147_483_647,
        m <= 99,
        d <= 99,
    ensures
        blocks_view(final(doc)@) == blocks_view(old(doc)@) + spec_merchant_section(
            *b,
            idx as int,
            n as int,
            match custom_title {
                Some(t) => Some(t@),
                None => None,
            },
            per_page as int,
            y as int,
            m as int,
            d as int,
        ),
{
    let ghost pre = blocks_view(doc@);
    let title: Vec<char> = match custom_title {
        Some(t) => str_chars(t.as_str()),
        None => default_title(y, m),
    };
    push_text_para(doc, title, Some(22), true, None, Align::Center);
    let info = info_line(b, y, m, d);
    push_text_para(doc, info, Some(11), false, None, Align::Default);
    push_empty_para(doc);
    let table = merchant_table(b);
    doc.push(Block::Table(table));
    proof {
        assert(blocks_view(doc@) =~~= pre.push(
            spec_text_para(
                match custom_title {
                    Some(t) => t@,
                    None => spec_default_title(y as int, m as int),
                },
                Some(22int),
                true,
                None,
                Align::Center,
            ),
        ).push(
            spec_text_para(
                spec_info_line(*b, y as int, m as int, d as int),
                Some(11int),
                false,
                None,
                Align::Default,
            ),
        ).push(spec_empty_para()).push(spec_notice_table(*b)));
    }
    push_empty_para(doc);
    push_text_para(doc, str_chars("1、此单可对账不做凭证；\n\n2、每月5日前为收费时间，超期按5%收滞纳金或停电；\n\n3、以上费用如有不明或差\n请到管理处核对。"), Some(9), false, None, Align::Default);
    if idx + 1 < n {
        let mut sep: Vec<char> = Vec::new();
        let mut q: usize = 0;
        while q < 40
            invariant
                q <= 40,
                sep@ =~= Seq::new(q as nat, |i: int| '='),
            decreases 40 - q,
        {
            sep.push('=');
            proof {
                assert(sep@ =~= Seq::new((q + 1) as nat, |i: int| '='));
            }
            q = q + 1;
        }
        proof {
            assert(sep@ =~= spec_separator());
        }
        push_text_para(doc, sep, None, false, None, Align::Default);
        if per_page != 0 && (idx + 1) % per_page == 0 {
            push_page_break(doc);
        }
    }
    proof {
        assert(blocks_view(doc@) =~~= pre + spec_merchant_section(
            *b,
            idx as int,
            n as int,
            match custom_title {
                Some(t) => Some(t@),
                None => None,
            },
            per_page as int,
            y as int,
            m as int,
            d as int,
        ));
    }
}


/// The flat-fee sums of well-formed records stay within the record count
/// times the input limit.
pub proof fn lemma_fee_sums_bound(s: Seq<MerchantBill>)
    requires
        forall|i: int| 0 <= i < s.len() ==> (#[trigger] s[i]).wf(),
    ensures
        -(s.len() * crate::num::VALUE_LIMIT as int) <= sum_labor_fee(s) <= s.len()
            * crate::num::VALUE_LIMIT as int,
        -(s.len() * crate::num::VALUE_LIMIT as int) <= sum_garbage_fee(s) <= s.len()
            * crate::num::VALUE_LIMIT as int,
    decreases s.len(),
{
    if s.len() > 0 {
        assert forall|i: int|
            0 <= i < s.drop_last().len() implies (#[trigger] s.drop_last()[i]).wf() by {
            assert(s.drop_last()[i] == s[i]);
        }
        lemma_fee_sums_bound(s.drop_last());
        assert((s.len() - 1) * crate::num::VALUE_LIMIT as int + crate::num::VALUE_LIMIT as int
            == s.len() * crate::num::VALUE_LIMIT as int) by (nonlinear_arith);
    }
}


/// A water fee amount stays within a much smaller bound than the general
/// amount limit, because a single pair of readings caps the usage.
pub proof fn lemma_water_amount_bound(u: int, p: int)
    requires
        0 <= u <= 2_000_000_000,
        -1_000_000_000 <= p <= 1_000_000_000,
    ensures
        -2_100_000_000_000_000 <= crate::num::spec_line_amount(u, p) <= 2_100_000_000_000_000,
{
    assert(-2_000_000_000_000_000_000 <= u * p <= 2_000_000_000_000_000_000) by (nonlinear_arith)
        requires
            0 <= u <= 2_000_000_000,
            -1_000_000_000 <= p <= 1_000_000_000,
    ;
}

/// The summed water amounts of well-formed records stay within the record
/// count times the single-record water amount bound.
pub proof fn lemma_water_amount_sum_bound(s: Seq<MerchantBill>)
    requires
        forall|i: int| 0 <= i < s.len() ==> (#[trigger] s[i]).wf(),
    ensures
        -(s.len() * 2_100_000_000_000_000) <= sum_water_amount(s) <= s.len()
            * 2_100_000_000_000_000,
    decreases s.len(),
{
    if s.len() > 0 {
        assert forall|i: int|
            0 <= i < s.drop_last().len() implies (#[trigger] s.drop_last()[i]).wf() by {
            assert(s.drop_last()[i] == s[i]);
        }
        lemma_water_amount_sum_bound(s.drop_last());
        lemma_water_amount_bound(
            s.last().water_usage as int,
            s.last().water_unit_price as int,
        );
        assert((s.len() - 1) * 2_100_000_000_000_000 + 2_100_000_000_000_000 == s.len()
            * 2_100_000_000_000_000) by (nonlinear_arith);
    }
}

/// A summary cell.
fn sum_cell(text: Vec<char>, bold: bool) -> (r: CellSpec)
    ensures
        r@ == spec_sum_cell(text@, bold),
{
    make_text_cell(text, None, bold, Align::Default)
}

/// Builds one record's summary row.
fn summary_row(b: &MerchantBill) -> (r: RowSpec)
    requires
        b.wf(),
    ensures
        r@ == spec_summary_row(*b),
{
    proof {
        lemma_wf_field_bounds(*b);
    }
    let combined: i128 = (b.water_amount as i128) + (b.electricity_amount as i128);
    let r = make_row5(
        sum_cell(str_chars(b.merchant_name.as_str()), false),
        sum_cell(fmt_fix2_milli(combined), false),
        sum_cell(fmt_fix2_milli(b.water_electricity_labor_fee as i128), false),
        sum_cell(fmt_fix2_milli(b.garbage_disposal_fee as i128), false),
        sum_cell(fmt_fix2_milli(b.total_fee as i128), false),
    );
    proof {
        assert(r@ =~~= spec_summary_row(*b));
    }
    r
}

/// Appends the summary title and table to the document.
#[verifier::rlimit(100)]
fn push_summary(doc: &mut Vec<Block>, ms: &Vec<MerchantBill>)
    requires
        forall|i: int| 0 <= i < ms@.len() ==> (#[trigger] ms@[i]).wf(),
    ensures
        blocks_view(final(doc)@) == blocks_view(old(doc)@) + spec_summary_blocks(ms@),
{
    let ghost pre = blocks_view(doc@);
    push_text_para(doc, str_chars("费用汇总表"), Some(18), true, None, Align::Center);
    let mut rows: Vec<RowSpec> = Vec::new();
    let hr = make_row5(
        sum_cell(str_chars("店铺名称"), true),
        sum_cell(str_chars("水电费合计（元）"), true),
        sum_cell(str_chars("水电人工费"), true),
        sum_cell(str_chars("垃圾处理费"), true),
        sum_cell(str_chars("总价"), true),
    );
    rows.push(hr);
    proof {
        assert(rows_view(rows@) =~~= seq![
            RowM {
                cells: seq![
                    spec_sum_cell("店铺名称"@, true),
                    spec_sum_cell("水电费合计（元）"@, true),
                    spec_sum_cell("水电人工费"@, true),
                    spec_sum_cell("垃圾处理费"@, true),
                    spec_sum_cell("总价"@, true),
                ],
                height: None,
            },
        ]);
    }
    let ghost header_m = rows_view(rows@);
    let mut wa: i128 = 0;
    let mut ea: i128 = 0;
    let mut lf: i128 = 0;
    let mut gf: i128 = 0;
    let mut tt: i128 = 0;
    let mut i: usize = 0;
    proof {
        assert(ms@.subrange(0, 0) =~= Seq::<MerchantBill>::empty());
    }
    while i < ms.len()
        invariant
            i <= ms@.len(),
            forall|k: int| 0 <= k < ms@.len() ==> (#[trigger] ms@[k]).wf(),
            wa == sum_water_amount(ms@.subrange(0, i as int)),
            ea == sum_electricity_amount(ms@.subrange(0, i as int)),
            lf == sum_labor_fee(ms@.subrange(0, i as int)),
            gf == sum_garbage_fee(ms@.subrange(0, i as int)),
            tt == sum_total_fee(ms@.subrange(0, i as int)),
            header_m.len() == 1,
            rows_view(rows@) == header_m + Seq::new(i as nat, |k: int| spec_summary_row(ms@[k])),
        decreases ms@.len() - i,
    {
        let ghost pre_sub = ms@.subrange(0, i as int);
        let ghost post_sub = ms@.subrange(0, i as int + 1);
        proof {
            assert(post_sub.drop_last() =~= pre_sub);
            assert(post_sub.last() == ms@[i as int]);
            assert forall|k: int| 0 <= k < pre_sub.len() implies (#[trigger] pre_sub[k]).wf() by {
                assert(pre_sub[k] == ms@[k]);
            }
            assert forall|k: int| 0 <= k < post_sub.len() implies (#[trigger] post_sub[k]).wf() by {
                assert(post_sub[k] == ms@[k]);
            }
            lemma_batch_sums_bound(pre_sub);
            lemma_fee_sums_bound(pre_sub);
            lemma_wf_field_bounds(ms@[i as int]);
            assert(pre_sub.len() * FIELD_BOUND as int <= 18446744073709551615
                * FIELD_BOUND as int) by (nonlinear_arith)
                requires
                    pre_sub.len() <= 18446744073709551615,
            ;
            assert(pre_sub.len() * crate::num::VALUE_LIMIT as int <= 18446744073709551615
                * crate::num::VALUE_LIMIT as int) by (nonlinear_arith)
                requires
                    pre_sub.len() <= 18446744073709551615,
            ;
        }
        let b = &ms[i];
        wa = wa + b.water_amount as i128;
        ea = ea + b.electricity_amount as i128;
        lf = lf + b.water_electricity_labor_fee as i128;
        gf = gf + b.garbage_disposal_fee as i128;
        tt = tt + b.total_fee as i128;
        let r = summary_row(b);
        let ghost prev_rows = rows@;
        rows.push(r);
        proof {
            let target = header_m + Seq::new((i + 1) as nat, |k: int| spec_summary_row(ms@[k]));
            assert forall|k: int|
                0 <= k < rows@.len() implies rows_view(rows@)[k] == target[k] by {
                if k < prev_rows.len() {
                    assert(rows@[k] == prev_rows[k]);
                    assert(rows_view(prev_rows)[k] == (header_m + Seq::new(
                        i as nat,
                        |k2: int| spec_summary_row(ms@[k2]),
                    ))[k]);
                } else {
                    assert(rows@[k] == r);
                }
            }
            assert(rows_view(rows@) =~= target);
        }
        i = i + 1;
    }
    proof {
        assert(ms@.subrange(0, ms@.len() as int) =~= ms@);
        lemma_batch_sums_bound(ms@);
        lemma_fee_sums_bound(ms@);
        assert(ms@.len() * FIELD_BOUND as int <= 18446744073709551615 * FIELD_BOUND as int)
            by (nonlinear_arith)
            requires
                ms@.len() <= 18446744073709551615,
        ;
        assert(ms@.len() * crate::num::VALUE_LIMIT as int <= 18446744073709551615
            * crate::num::VALUE_LIMIT as int) by (nonlinear_arith)
            requires
                ms@.len() <= 18446744073709551615,
        ;
        assert(ms@.len() <= 18446744073709551615) by {
            assert(ms.len() == ms@.len());
        }
    }
    proof {
        lemma_water_amount_sum_bound(ms@);
        assert(ms@.len() * 2_100_000_000_000_000 <= 18446744073709551615 * 2_100_000_000_000_000)
            by (nonlinear_arith)
            requires
                ms@.len() <= 18446744073709551615,
        ;
    }
    let totals = make_row5(
        sum_cell(str_chars("合计"), true),
        sum_cell(fmt_fix2_milli(wa + ea), true),
        sum_cell(fmt_fix2_milli(lf), true),
        sum_cell(fmt_fix2_milli(gf), true),
        sum_cell(fmt_fix2_milli(tt), true),
    );
    proof {
        assert(totals@ =~~= spec_summary_total_row(ms@));
    }
    let ghost prev_rows = rows@;
    rows.push(totals);
    proof {
        let target_rows = header_m + Seq::new(ms@.len(), |k: int| spec_summary_row(ms@[k]))
            + seq![spec_summary_total_row(ms@)];
        assert forall|k: int| 0 <= k < rows@.len() implies rows_view(rows@)[k] == target_rows[k] by {
            if k < prev_rows.len() {
                assert(rows@[k] == prev_rows[k]);
                assert(rows_view(prev_rows)[k] == (header_m + Seq::new(
                    ms@.len(),
                    |k2: int| spec_summary_row(ms@[k2]),
                ))[k]);
            } else {
                assert(rows@[k] == totals);
            }
        }
        assert(rows_view(rows@) =~= target_rows);
    }
    let table = TableSpec { rows, width: None };
    proof {
        assert(table@ =~~= (TableM {
            rows: header_m + Seq::new(ms@.len(), |k: int| spec_summary_row(ms@[k])) + seq![
                spec_summary_total_row(ms@),
            ],
            width: None,
        }));
    }
    let ghost table_m = table@;
    let ghost prev_doc = blocks_view(doc@);
    proof {
        assert(prev_doc.len() == pre.len() + 1);
    }
    doc.push(Block::Table(table));
    proof {
        assert(doc@.len() == prev_doc.len() + 1);
        assert(blocks_view(doc@).len() == doc@.len());
    }
    proof {
        assert forall|k: int|
            0 <= k < blocks_view(doc@).len() implies blocks_view(doc@)[k] == (pre
            + spec_summary_blocks(ms@))[k] by {
            if k < prev_doc.len() {
                assert(blocks_view(doc@)[k] == prev_doc[k]);
            } else {
                assert(blocks_view(doc@)[k] == BlockM::Table(table_m));
                assert(table_m == (TableM {
                    rows: header_m + Seq::new(ms@.len(), |k2: int| spec_summary_row(ms@[k2]))
                        + seq![spec_summary_total_row(ms@)],
                    width: None,
                }));
                assert((pre + spec_summary_blocks(ms@))[k] == spec_summary_blocks(ms@)[1]);
            }
        }
        assert(blocks_view(doc@).len() == pre.len() + 2);
        assert(blocks_view(doc@) =~= pre + spec_summary_blocks(ms@));
    }
}

/// The custom title of the options, as a character sequence.
pub open spec fn spec_title_of(options: Option<GenerateOptions>) -> Option<Seq<char>> {
    match options {
        Some(o) => match o.custom_title {
            Some(t) => Some(t@),
            None => None,
        },
        None => None,
    }
}

/// The pagination setting of the options; one record per page by default.
pub open spec fn spec_per_page_of(options: Option<GenerateOptions>) -> int {
    match options {
        Some(o) => o.per_page as int,
        None => 1,
    }
}

/// Assembles the whole notice document for a batch of records: one notice
/// per record, page breaks after every `per_page` records, and the summary
/// on its own page.  Fails exactly when the batch is empty.
#[verifier::rlimit(100)]
pub fn assemble_notice(merchants: &Vec<MerchantBill>, options: &Option<GenerateOptions>) -> (r:
    Result<Vec<Block>, BillError>)
    requires
        forall|i: int| 0 <= i < merchants@.len() ==> (#[trigger] merchants@[i]).wf(),
    ensures
        match r {
            Ok(blocks) => {
                &&& merchants@.len() >= 1
                &&& exists|y: int, m: int, d: int|
                    1 <= m <= 12 && 1 <= d <= 31 && blocks_view(blocks@)
                        == #[trigger] spec_notice_doc(
                        merchants@,
                        spec_title_of(*options),
                        spec_per_page_of(*options),
                        y,
                        m,
                        d,
                    )
            },
            Err(e) => e is NoRecords && merchants@.len() == 0,
        },
{
    if merchants.len() == 0 {
        return Err(BillError::NoRecords);
    }
    let (y, m, d, _h, _mi, _s) = now_parts();
    let per_page: usize = match options {
        Some(o) => o.per_page,
        None => 1,
    };
    let ghost title = spec_title_of(*options);
    let mut doc: Vec<Block> = Vec::new();
    let n = merchants.len();
    let mut i: usize = 0;
    proof {
        assert(blocks_view(doc@) =~= spec_sections(
            merchants@,
            0,
            title,
            per_page as int,
            y as int,
            m as int,
            d as int,
        ));
    }
    while i < n
        invariant
            i <= n,
            n == merchants@.len(),
            forall|k: int| 0 <= k < merchants@.len() ==> (#[trigger] merchants@[k]).wf(),
            -2_147_483_648 <= y <= 2_147_483_647,
            1 <= m <= 12,
            1 <= d <= 31,
            per_page as int == spec_per_page_of(*options),
            title == spec_title_of(*options),
            (match options {
                Some(o) => (match &o.custom_title {
                    Some(t) => title == Some(t@),
                    None => title is None,
                }),
                None => title is None,
            }),
            blocks_view(doc@) == spec_sections(
                merchants@,
                i as int,
                title,
                per_page as int,
                y as int,
                m as int,
                d as int,
            ),
        decreases n - i,
    {
        let custom: &Option<String> = match options {
            Some(o) => &o.custom_title,
            None => &None,
        };
        push_merchant_section(&mut doc, &merchants[i], i, n, custom, per_page, y, m, d);
        i = i + 1;
    }
    push_page_break(&mut doc);
    push_summary(&mut doc, merchants);
    proof {
        assert(blocks_view(doc@) =~= spec_notice_doc(
            merchants@,
            title,
            per_page as int,
            y as int,
            m as int,
            d as int,
        ));
    }
    Ok(doc)
}


/// Counting page breaks steps by one exactly on a page-break block.
proof fn lemma_count_push(s: Seq<BlockM>, x: BlockM)
    ensures
        spec_count_breaks(s.push(x)) == spec_count_breaks(s) + (if x == spec_page_break() {
            1int
        } else {
            0int
        }),
{
    assert(s.push(x).drop_last() =~= s);
    assert(s.push(x).last() == x);
}

/// One notice section holds exactly one page break when pagination is on
/// and the record closes a page that is not the last; otherwise none.
proof fn lemma_section_breaks(
    b: MerchantBill,
    idx: int,
    n: int,
    title: Option<Seq<char>>,
    pp: int,
    y: int,
    m: int,
    d: int,
)
    ensures
        spec_count_breaks(spec_merchant_section(b, idx, n, title, pp, y, m, d)) == (if idx + 1 < n
            && pp != 0 && (idx + 1) % pp == 0 {
            1int
        } else {
            0int
        }),
{
    let title_text = match title {
        Some(t) => t,
        None => spec_default_title(y, m),
    };
    let i0 = spec_text_para(title_text, Some(22int), true, None, Align::Center);
    let i1 = spec_text_para(spec_info_line(b, y, m, d), Some(11int), false, None, Align::Default);
    let i2 = spec_empty_para();
    let i3 = spec_notice_table(b);
    let i4 = spec_empty_para();
    let i5 = spec_text_para(spec_disclaimer(), Some(9int), false, None, Align::Default);
    let base = seq![i0, i1, i2, i3, i4, i5];
    assert(spec_count_breaks(base) == 0) by {
        let s0 = Seq::<BlockM>::empty();
        let s1 = s0.push(i0);
        let s2 = s1.push(i1);
        let s3 = s2.push(i2);
        let s4 = s3.push(i3);
        let s5 = s4.push(i4);
        let s6 = s5.push(i5);
        lemma_count_push(s0, i0);
        lemma_count_push(s1, i1);
        lemma_count_push(s2, i2);
        lemma_count_push(s3, i3);
        lemma_count_push(s4, i4);
        lemma_count_push(s5, i5);
        assert(base =~= s6);
    }
    if idx + 1 < n {
        let sep = spec_text_para(spec_separator(), None, false, None, Align::Default);
        if pp != 0 && (idx + 1) % pp == 0 {
            let tail = seq![sep] + seq![spec_page_break()];
            lemma_count_breaks_concat(base, tail);
            assert(spec_count_breaks(tail) == 1) by {
                let s0 = Seq::<BlockM>::empty();
                let s1 = s0.push(sep);
                lemma_count_push(s0, sep);
                lemma_count_push(s1, spec_page_break());
                assert(tail =~= s1.push(spec_page_break()));
            }
            assert(spec_merchant_section(b, idx, n, title, pp, y, m, d) =~= base + tail);
        } else {
            let tail = seq![sep];
            lemma_count_breaks_concat(base, tail);
            assert(spec_count_breaks(tail) == 0) by {
                lemma_count_push(Seq::<BlockM>::empty(), sep);
                assert(tail =~= Seq::<BlockM>::empty().push(sep));
            }
            assert(spec_merchant_section(b, idx, n, title, pp, y, m, d) =~= base + tail);
        }
    } else {
        assert(spec_merchant_section(b, idx, n, title, pp, y, m, d) =~= base
            + Seq::<BlockM>::empty());
        lemma_count_breaks_concat(base, Seq::<BlockM>::empty());
    }
}

/// The page breaks among the first `k` notice sections: one per full page,
/// never after the last record.
pub open spec fn spec_internal_breaks(k: int, n: int, pp: int) -> int
    decreases k,
{
    if k <= 0 {
        0
    } else {
        spec_internal_breaks(k - 1, n, pp) + (if k < n && pp != 0 && k % pp == 0 {
            1int
        } else {
            0int
        })
    }
}

/// The concatenated sections of the first `k` records hold exactly the
/// internal page breaks.
proof fn lemma_sections_breaks(
    ms: Seq<MerchantBill>,
    k: int,
    title: Option<Seq<char>>,
    pp: int,
    y: int,
    m: int,
    d: int,
)
    requires
        0 <= k <= ms.len(),
    ensures
        spec_count_breaks(spec_sections(ms, k, title, pp, y, m, d)) == spec_internal_breaks(
            k,
            ms.len() as int,
            pp,
        ),
    decreases k,
{
    if k > 0 {
        lemma_sections_breaks(ms, k - 1, title, pp, y, m, d);
        lemma_count_breaks_concat(
            spec_sections(ms, k - 1, title, pp, y, m, d),
            spec_merchant_section(ms[k - 1], k - 1, ms.len() as int, title, pp, y, m, d),
        );
        lemma_section_breaks(ms[k - 1], k - 1, ms.len() as int, title, pp, y, m, d);
    }
}

/// The closed form of the internal break count: the full pages before the
/// last record.
proof fn lemma_internal_breaks_closed(k: int, n: int, pp: int)
    requires
        0 <= k <= n,
        1 <= n,
        0 <= pp,
    ensures
        spec_internal_breaks(k, n, pp) == (if pp == 0 {
            0int
        } else if k < n {
            k / pp
        } else {
            (n - 1) / pp
        }),
    decreases k,
{
    if k == 0 {
        if pp > 0 {
            assert(0int / pp == 0) by (nonlinear_arith)
                requires
                    pp > 0,
            ;
        }
    } else {
        lemma_internal_breaks_closed(k - 1, n, pp);
        if pp > 0 {
            if k < n {
                if k % pp == 0 {
                    assert(k / pp == (k - 1) / pp + 1) by (nonlinear_arith)
                        requires
                            pp > 0,
                            k >= 1,
                            k % pp == 0,
                    ;
                } else {
                    assert(k / pp == (k - 1) / pp) by (nonlinear_arith)
                        requires
                            pp > 0,
                            k >= 1,
                            k % pp != 0,
                    ;
                }
            }
        }
    }
}

/// The law of pagination: a notice document over at least one record holds
/// exactly one page break per full page of records — none after the last
/// record — plus the one forced break before the summary page.
pub proof fn lemma_notice_page_breaks(
    ms: Seq<MerchantBill>,
    title: Option<Seq<char>>,
    pp: int,
    y: int,
    m: int,
    d: int,
)
    requires
        ms.len() >= 1,
        pp >= 0,
    ensures
        spec_count_breaks(spec_notice_doc(ms, title, pp, y, m, d)) == (if pp == 0 {
            0int
        } else {
            (ms.len() - 1) / pp
        }) + 1,
{
    let sections = spec_sections(ms, ms.len() as int, title, pp, y, m, d);
    let tail = seq![spec_page_break()] + spec_summary_blocks(ms);
    assert(spec_notice_doc(ms, title, pp, y, m, d) =~= sections + tail);
    lemma_count_breaks_concat(sections, tail);
    lemma_sections_breaks(ms, ms.len() as int, title, pp, y, m, d);
    lemma_internal_breaks_closed(ms.len() as int, ms.len() as int, pp);
    assert(spec_count_breaks(tail) == 1) by {
        let t0 = spec_text_para("费用汇总表"@, Some(18int), true, None, Align::Center);
        let t1 = spec_summary_blocks(ms)[1];
        let s0 = Seq::<BlockM>::empty();
        let s1 = s0.push(spec_page_break());
        let s2 = s1.push(t0);
        lemma_count_push(s0, spec_page_break());
        lemma_count_push(s1, t0);
        lemma_count_push(s2, t1);
        assert(tail =~= s2.push(t1));
    }
}


/// Builds the notice document for a batch of records and renders it as a
/// word-processing file.  Fails when the batch is empty, or when the
/// archive writer reports an error.
pub fn generate_word_document_with_template(
    merchants: &Vec<MerchantBill>,
    options: Option<GenerateOptions>,
) -> (r: Result<Vec<u8>, BillError>)
    requires
        forall|i: int| 0 <= i < merchants@.len() ==> (#[trigger] merchants@[i]).wf(),
    ensures
        r is Ok ==> merchants@.len() >= 1,
        merchants@.len() == 0 <==> (r is Err && r->Err_0 is NoRecords),
        r is Err ==> (r->Err_0 is NoRecords || r->Err_0 is RenderFailed),
{
    match assemble_notice(merchants, &options) {
        Ok(blocks) => crate::docx::render_blocks(&blocks),
        Err(e) => Err(e),
    }
}

} // verus!
