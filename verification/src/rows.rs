//! Turning raw table rows into billing records.
//!
//! A cell is a number, text, or nothing.  Numeric fields are coerced
//! leniently: text is parsed as a decimal and malformed text counts as
//! zero; a missing cell counts as zero or empty text.  A row whose
//! merchant-name cell is blank is skipped.  A meter column pair joins the
//! record only when at least one of its two readings is positive.

use vstd::prelude::*;
use crate::billing::MerchantBill;
use crate::headers::{ColumnIndices, spec_headers_view, spec_meter_found, HeadersMap,
    spec_columns_resolved, spec_missing_label, spec_final_meters, resolve_required_columns,
    resolve_meter_columns};
use crate::num::{VALUE_LIMIT, METER_LIMIT, spec_clamp, clamp_milli, spec_fmt_plain_milli,
    fmt_plain_milli, spec_nat_digits, nat_digits_u128};
use crate::parse::{spec_parse_milli, parse_milli};
use crate::text::{spec_trim, trim_chars, str_chars, chars_to_string};
use crate::BillError;

verus! {

/// One raw table cell.
pub enum CellValue {
    /// A numeric cell, already in milli-units.
    Number(i64),
    /// A text cell, parsed leniently where a number is expected.
    Text(String),
    /// An empty or unusable cell.
    Empty,
}

/// The numeric value of a cell: numbers saturated to the accepted range,
/// text parsed leniently, anything else zero.
pub open spec fn spec_cell_value(c: CellValue) -> int {
    match c {
        CellValue::Number(n) => spec_clamp(n as int),
        CellValue::Text(s) => spec_parse_milli(s@),
        CellValue::Empty => 0,
    }
}

/// The text of a cell: numbers rendered plainly, text as is, nothing for an
/// empty cell.
pub open spec fn spec_cell_text(c: CellValue) -> Seq<char> {
    match c {
        CellValue::Number(n) => spec_fmt_plain_milli(n as int),
        CellValue::Text(s) => s@,
        CellValue::Empty => Seq::<char>::empty(),
    }
}

/// The numeric value of the cell at a column, zero when the row is shorter.
pub open spec fn spec_value_at(row: Seq<CellValue>, i: int) -> int {
    if 0 <= i < row.len() {
        spec_cell_value(row[i])
    } else {
        0
    }
}

/// The text of the cell at a column, empty when the row is shorter.
pub open spec fn spec_text_at(row: Seq<CellValue>, i: int) -> Seq<char> {
    if 0 <= i < row.len() {
        spec_cell_text(row[i])
    } else {
        Seq::<char>::empty()
    }
}

/// Reads the numeric value of the cell at a column.
pub fn cell_value_at(row: &Vec<CellValue>, i: usize) -> (r: i64)
    ensures
        r == spec_value_at(row@, i as int),
        -VALUE_LIMIT <= r <= VALUE_LIMIT,
{
    if i < row.len() {
        match &row[i] {
            CellValue::Number(n) => clamp_milli(*n),
            CellValue::Text(s) => {
                let cs = str_chars(s.as_str());
                parse_milli(&cs)
            },
            CellValue::Empty => 0,
        }
    } else {
        0
    }
}

/// Reads the text of the cell at a column.
pub fn cell_text_at(row: &Vec<CellValue>, i: usize) -> (r: Vec<char>)
    ensures
        r@ == spec_text_at(row@, i as int),
{
    if i < row.len() {
        match &row[i] {
            CellValue::Number(n) => fmt_plain_milli(*n as i128),
            CellValue::Text(s) => str_chars(s.as_str()),
            CellValue::Empty => Vec::new(),
        }
    } else {
        Vec::new()
    }
}

/// Whether a meter column pair contributes a meter for this row: at least
/// one of its two readings is positive.  A pair whose readings are both
/// zero (or missing, or negative) is left out entirely.
pub open spec fn spec_meter_kept(row: Seq<CellValue>, c: (usize, usize)) -> bool {
    spec_value_at(row, c.0 as int) > 0 || spec_value_at(row, c.1 as int) > 0
}

/// The positions (into the meter column list) of the pairs that contribute
/// a meter for this row, in order.
pub open spec fn spec_kept_meters(row: Seq<CellValue>, mcols: Seq<(usize, usize)>) -> Seq<int>
    decreases mcols.len(),
{
    if mcols.len() == 0 {
        Seq::<int>::empty()
    } else {
        let rest = spec_kept_meters(row, mcols.drop_last());
        if spec_meter_kept(row, mcols.last()) {
            rest.push(mcols.len() - 1)
        } else {
            rest
        }
    }
}

/// The kept positions are in range and no more numerous than the pairs.
pub proof fn lemma_kept_meters_props(row: Seq<CellValue>, mcols: Seq<(usize, usize)>)
    ensures
        spec_kept_meters(row, mcols).len() <= mcols.len(),
        forall|j: int|
            0 <= j < spec_kept_meters(row, mcols).len() ==> 0 <= #[trigger] spec_kept_meters(
                row,
                mcols,
            )[j] < mcols.len(),
    decreases mcols.len(),
{
    if mcols.len() > 0 {
        lemma_kept_meters_props(row, mcols.drop_last());
    }
}

/// Whether a record is exactly what one row yields: every scalar field is
/// the (leniently coerced) cell in its column, the name and shop code are
/// trimmed cell text, and the meters are exactly the kept column pairs in
/// order, each numbered by its column position.
pub open spec fn spec_bill_matches_row(
    b: MerchantBill,
    row: Seq<CellValue>,
    ci: ColumnIndices,
    mcols: Seq<(usize, usize)>,
) -> bool {
    let kept = spec_kept_meters(row, mcols);
    &&& b.wf()
    &&& b.merchant_name@ == spec_trim(spec_text_at(row, ci.merchant as int))
    &&& b.shop_code@ == spec_trim(spec_text_at(row, ci.shop_code as int))
    &&& b.water_unit_price == spec_value_at(row, ci.water_price as int)
    &&& b.electricity_unit_price == spec_value_at(row, ci.electricity_price as int)
    &&& b.prev_water_reading == spec_value_at(row, ci.water_prev as int)
    &&& b.curr_water_reading == spec_value_at(row, ci.water_curr as int)
    &&& b.water_electricity_labor_fee == spec_value_at(row, ci.labor_fee as int)
    &&& b.garbage_disposal_fee == spec_value_at(row, ci.garbage_fee as int)
    &&& b.meter_reader is None
    &&& b.meter_date is None
    &&& b.electricity_meters@.len() == kept.len()
    &&& forall|j: int|
        0 <= j < kept.len() ==> {
            &&& (#[trigger] b.electricity_meters@[j]).prev_reading == spec_value_at(
                row,
                mcols[kept[j]].0 as int,
            )
            &&& b.electricity_meters@[j].curr_reading == spec_value_at(
                row,
                mcols[kept[j]].1 as int,
            )
            &&& b.electricity_meters@[j].meter_id@ == spec_nat_digits(kept[j] + 1)
        }
}

/// Builds the record for one row, or nothing when the merchant-name cell is
/// blank.
pub fn bill_from_cells(
    row: &Vec<CellValue>,
    ci: &ColumnIndices,
    mcols: &Vec<(usize, usize)>,
) -> (r: Option<MerchantBill>)
    requires
        mcols@.len() <= METER_LIMIT,
    ensures
        r is Some <==> spec_trim(spec_text_at(row@, ci.merchant as int)).len() > 0,
        r is Some ==> spec_bill_matches_row(r->0, row@, *ci, mcols@),
{
    let name_raw = cell_text_at(row, ci.merchant);
    let name = trim_chars(&name_raw);
    if name.len() == 0 {
        return None;
    }
    let wprice = cell_value_at(row, ci.water_price);
    let eprice = cell_value_at(row, ci.electricity_price);
    let mut b = MerchantBill::new(chars_to_string(&name), wprice, eprice);
    let prevw = cell_value_at(row, ci.water_prev);
    let currw = cell_value_at(row, ci.water_curr);
    b.set_water_readings(prevw, currw);
    let code_raw = cell_text_at(row, ci.shop_code);
    let code = trim_chars(&code_raw);
    b.set_shop_code(chars_to_string(&code));
    proof {
        assert(spec_kept_meters(row@, mcols@.subrange(0, 0)) =~= Seq::<int>::empty());
    }
    let mut k: usize = 0;
    while k < mcols.len()
        invariant
            k <= mcols@.len(),
            mcols@.len() <= METER_LIMIT,
            b.base_ok(),
            b.water_ok(),
            b.merchant_name@ == spec_trim(spec_text_at(row@, ci.merchant as int)),
            b.shop_code@ == spec_trim(spec_text_at(row@, ci.shop_code as int)),
            b.water_unit_price == spec_value_at(row@, ci.water_price as int),
            b.electricity_unit_price == spec_value_at(row@, ci.electricity_price as int),
            b.prev_water_reading == spec_value_at(row@, ci.water_prev as int),
            b.curr_water_reading == spec_value_at(row@, ci.water_curr as int),
            b.meter_reader is None,
            b.meter_date is None,
            b.electricity_meters@.len() == spec_kept_meters(
                row@,
                mcols@.subrange(0, k as int),
            ).len(),
            forall|j: int|
                0 <= j < spec_kept_meters(row@, mcols@.subrange(0, k as int)).len() ==> {
                    &&& (#[trigger] b.electricity_meters@[j]).prev_reading == spec_value_at(
                        row@,
                        mcols@[spec_kept_meters(row@, mcols@.subrange(0, k as int))[j]].0 as int,
                    )
                    &&& b.electricity_meters@[j].curr_reading == spec_value_at(
                        row@,
                        mcols@[spec_kept_meters(row@, mcols@.subrange(0, k as int))[j]].1 as int,
                    )
                    &&& b.electricity_meters@[j].meter_id@ == spec_nat_digits(
                        spec_kept_meters(row@, mcols@.subrange(0, k as int))[j] + 1,
                    )
                },
        decreases mcols@.len() - k,
    {
        let ghost pre = mcols@.subrange(0, k as int);
        let ghost post = mcols@.subrange(0, k as int + 1);
        proof {
            assert(post.drop_last() =~= pre);
            assert(post.last() == mcols@[k as int]);
            lemma_kept_meters_props(row@, pre);
            lemma_kept_meters_props(row@, post);
        }
        let (pc, cc) = mcols[k];
        let pv = cell_value_at(row, pc);
        let cv = cell_value_at(row, cc);
        if pv > 0 || cv > 0 {
            let id = nat_digits_u128((k + 1) as u128);
            b.add_electricity_meter(chars_to_string(&id), pv, cv);
        }
        k = k + 1;
    }
    proof {
        assert(mcols@.subrange(0, mcols@.len() as int) =~= mcols@);
    }
    let labor = cell_value_at(row, ci.labor_fee);
    let garbage = cell_value_at(row, ci.garbage_fee);
    b.set_additional_fees(labor, garbage);
    Some(b)
}

/// Whether a row enters the batch: it has at least one cell and its
/// merchant-name cell is not blank.
pub open spec fn spec_row_kept(row: Seq<CellValue>, m_i: int) -> bool {
    row.len() > 0 && spec_trim(spec_text_at(row, m_i)).len() > 0
}

/// The indices of the rows that enter the batch, in order.
pub open spec fn spec_kept_rows(rows: Seq<Vec<CellValue>>, m_i: int) -> Seq<int>
    decreases rows.len(),
{
    if rows.len() == 0 {
        Seq::<int>::empty()
    } else {
        let rest = spec_kept_rows(rows.drop_last(), m_i);
        if spec_row_kept(rows.last()@, m_i) {
            rest.push(rows.len() - 1)
        } else {
            rest
        }
    }
}

/// The kept row indices are in range.
pub proof fn lemma_kept_rows_props(rows: Seq<Vec<CellValue>>, m_i: int)
    ensures
        spec_kept_rows(rows, m_i).len() <= rows.len(),
        forall|j: int|
            0 <= j < spec_kept_rows(rows, m_i).len() ==> 0 <= #[trigger] spec_kept_rows(
                rows,
                m_i,
            )[j] < rows.len(),
    decreases rows.len(),
{
    if rows.len() > 0 {
        lemma_kept_rows_props(rows.drop_last(), m_i);
    }
}

/// Builds one record per kept row, against already resolved columns.
/// Fails exactly when no row is kept.
pub fn build_bills(
    rows: &Vec<Vec<CellValue>>,
    ci: &ColumnIndices,
    mcols: &Vec<(usize, usize)>,
) -> (r: Result<Vec<MerchantBill>, BillError>)
    requires
        mcols@.len() <= METER_LIMIT,
    ensures
        match r {
            Ok(bills) => {
                &&& spec_kept_rows(rows@, ci.merchant as int).len() >= 1
                &&& bills@.len() == spec_kept_rows(rows@, ci.merchant as int).len()
                &&& forall|j: int|
                    0 <= j < bills@.len() ==> spec_bill_matches_row(
                        #[trigger] bills@[j],
                        rows@[spec_kept_rows(rows@, ci.merchant as int)[j]]@,
                        *ci,
                        mcols@,
                    )
            },
            Err(e) => {
                &&& e is NoRecords
                &&& spec_kept_rows(rows@, ci.merchant as int).len() == 0
            },
        },
{
    let ghost m_i = ci.merchant as int;
    let mut bills: Vec<MerchantBill> = Vec::new();
    proof {
        assert(spec_kept_rows(rows@.subrange(0, 0), m_i) =~= Seq::<int>::empty());
    }
    let mut i: usize = 0;
    while i < rows.len()
        invariant
            i <= rows@.len(),
            mcols@.len() <= METER_LIMIT,
            bills@.len() == spec_kept_rows(rows@.subrange(0, i as int), m_i).len(),
            m_i == ci.merchant as int,
            forall|j: int|
                0 <= j < bills@.len() ==> spec_bill_matches_row(
                    #[trigger] bills@[j],
                    rows@[spec_kept_rows(rows@.subrange(0, i as int), m_i)[j]]@,
                    *ci,
                    mcols@,
                ),
        decreases rows@.len() - i,
    {
        let ghost pre = rows@.subrange(0, i as int);
        let ghost post = rows@.subrange(0, i as int + 1);
        proof {
            assert(post.drop_last() =~= pre);
            assert(post.last() == rows@[i as int]);
            lemma_kept_rows_props(rows@, m_i);
            lemma_kept_rows_props(rows@, m_i);
            lemma_kept_rows_props(pre, m_i);
            lemma_kept_rows_props(post, m_i);
            assert forall|j: int| 0 <= j < pre.len() implies pre[j] == rows@[j] by {}
        }
        let row = &rows[i];
        if row.len() > 0 {
            match bill_from_cells(row, ci, mcols) {
                Some(b) => {
                    bills.push(b);
                },
                None => {},
            }
        }
        proof {
            assert forall|j: int|
                0 <= j < spec_kept_rows(post, m_i).len() implies spec_kept_rows(post, m_i)[j]
                < post.len() && rows@[spec_kept_rows(post, m_i)[j]]@ == post[spec_kept_rows(
                post,
                m_i,
            )[j]]@ by {
                assert(spec_kept_rows(post, m_i)[j] < post.len());
            }
        }
        i = i + 1;
    }
    proof {
        assert(rows@.subrange(0, rows@.len() as int) =~= rows@);
    }
    if bills.len() == 0 {
        return Err(BillError::NoRecords);
    }
    Ok(bills)
}

/// Fully resolved table structure: every required column found by its
/// label, and the final meter pair list within the per-record limit.
pub open spec fn spec_resolution(
    dv: Seq<Seq<char>>,
    prefix: Seq<char>,
    ci: ColumnIndices,
    mcols: Seq<(usize, usize)>,
) -> bool {
    &&& spec_columns_resolved(dv, ci)
    &&& spec_final_meters(dv, prefix, ci.meter1_prev, ci.meter1_curr, mcols)
    &&& 1 <= mcols.len() <= METER_LIMIT
}

/// What building a batch from a header row and data rows yields: on
/// success, one record per kept row against some resolution of the headers;
/// on failure, the error names what was missing.
pub open spec fn spec_table_outcome(
    dv: Seq<Seq<char>>,
    prefix: Seq<char>,
    rows: Seq<Vec<CellValue>>,
    r: Result<Vec<MerchantBill>, BillError>,
) -> bool {
    match r {
        Ok(bills) => exists|ci: ColumnIndices, mcols: Seq<(usize, usize)>|
            {
                &&& #[trigger] spec_resolution(dv, prefix, ci, mcols)
                &&& spec_kept_rows(rows, ci.merchant as int).len() >= 1
                &&& bills@.len() == spec_kept_rows(rows, ci.merchant as int).len()
                &&& forall|j: int|
                    0 <= j < bills@.len() ==> spec_bill_matches_row(
                        #[trigger] bills@[j],
                        rows[spec_kept_rows(rows, ci.merchant as int)[j]]@,
                        ci,
                        mcols,
                    )
            },
        Err(e) => {
            ||| (e is ColumnNotFound && spec_missing_label(dv, e->ColumnNotFound_0@))
            ||| (e is NoMeterColumns && e->NoMeterColumns_0@ == prefix && !spec_meter_found(
                dv,
                prefix,
                1,
            ))
            ||| (e is TooManyMeterColumns)
            ||| (e is NoRecords && exists|ci: ColumnIndices|
                #[trigger] spec_columns_resolved(dv, ci) && spec_kept_rows(
                    rows,
                    ci.merchant as int,
                ).len() == 0)
        },
    }
}

/// Builds the batch for one table: resolves every required column and the
/// meter pairs from the header row, then one record per kept data row.
pub fn build_bills_from_table(
    headers: &Vec<String>,
    rows: &Vec<Vec<CellValue>>,
    headers_map: &HeadersMap,
) -> (r: Result<Vec<MerchantBill>, BillError>)
    ensures
        spec_table_outcome(
            spec_headers_view(headers@),
            headers_map.electricity_prefix@,
            rows@,
            r,
        ),
{
    let ghost dv = spec_headers_view(headers@);
    let ghost prefix = headers_map.electricity_prefix@;
    let ci = match resolve_required_columns(headers) {
        Ok(ci) => ci,
        Err(e) => {
            return Err(e);
        },
    };
    let mcols = match resolve_meter_columns(
        headers,
        headers_map.electricity_prefix,
        ci.meter1_prev,
        ci.meter1_curr,
    ) {
        Ok(m) => m,
        Err(e) => {
            return Err(e);
        },
    };
    let out = build_bills(rows, &ci, &mcols);
    match out {
        Ok(bills) => {
            proof {
                assert(spec_resolution(dv, prefix, ci, mcols@));
            }
            Ok(bills)
        },
        Err(e) => {
            proof {
                assert(spec_columns_resolved(dv, ci));
            }
            Err(e)
        },
    }
}

} // verus!
