//! The per-merchant billing model: meter readings, usage, fee amounts and
//! totals, all in milli-units of the respective measure or currency.
//!
//! The aggregate electricity fee is computed by summing the usage of every
//! meter first and applying the unit price once, then rounding — it is not
//! the sum of the already-rounded per-meter display amounts.

use vstd::prelude::*;
use crate::num::{VALUE_LIMIT, METER_LIMIT, AMOUNT_LIMIT, spec_usage, usage_of, spec_line_amount,
    line_amount_milli, spec_fmt_plain_milli, fmt_plain_milli, spec_fmt_fix2_milli, fmt_fix2_milli,
    append_chars};
use crate::text::chars_to_string;
use crate::text::str_chars;
use crate::clock::{now_parts, month_label, spec_month_label};

verus! {

/// One electricity meter on a record: the readings it was created from and
/// the usage and display amount derived from them.
pub struct ElectricityMeter {
    /// Stable identifier, assigned by column discovery order.
    pub meter_id: String,
    /// Reading at the start of the period, milli-units.
    pub prev_reading: i64,
    /// Reading at the end of the period, milli-units.
    pub curr_reading: i64,
    /// Derived usage: the difference floored at zero, milli-units.
    pub usage: i64,
    /// Display-only per-line amount: usage times unit price rounded to a
    /// whole currency unit, milli-units.  Totals never sum this field.
    pub amount: i64,
}

/// A well-formed meter for a record with the given electricity unit price.
pub open spec fn meter_wf(m: ElectricityMeter, price: int) -> bool {
    &&& -VALUE_LIMIT <= m.prev_reading <= VALUE_LIMIT
    &&& -VALUE_LIMIT <= m.curr_reading <= VALUE_LIMIT
    &&& m.usage == spec_usage(m.prev_reading as int, m.curr_reading as int)
    &&& m.amount == spec_line_amount(m.usage as int, price)
}

/// The summed usage of a sequence of meters.
pub open spec fn sum_meter_usage(s: Seq<ElectricityMeter>) -> int
    decreases s.len(),
{
    if s.len() == 0 {
        0
    } else {
        sum_meter_usage(s.drop_last()) + s.last().usage
    }
}

/// The summed usage of well-formed meters is bounded by the per-meter cap.
pub proof fn lemma_sum_usage_bound(s: Seq<ElectricityMeter>)
    requires
        forall|i: int| 0 <= i < s.len() ==> 0 <= #[trigger] s[i].usage <= 2 * VALUE_LIMIT,
    ensures
        0 <= sum_meter_usage(s) <= s.len() * (2 * VALUE_LIMIT),
    decreases s.len(),
{
    if s.len() > 0 {
        assert forall|i: int|
            0 <= i < s.drop_last().len() implies 0 <= #[trigger] s.drop_last()[i].usage <= 2
            * VALUE_LIMIT by {
            assert(s.drop_last()[i] == s[i]);
        }
        lemma_sum_usage_bound(s.drop_last());
        assert((s.len() - 1) * (2 * VALUE_LIMIT as int) + 2 * (VALUE_LIMIT as int) == s.len() * (2
            * VALUE_LIMIT as int)) by (nonlinear_arith);
    }
}

/// A fee amount within the input limits stays within the amount limit.
pub proof fn lemma_line_amount_bound(u: int, p: int)
    requires
        0 <= u <= 2_000_000_000_000,
        -VALUE_LIMIT <= p <= VALUE_LIMIT,
    ensures
        -AMOUNT_LIMIT <= spec_line_amount(u, p) <= AMOUNT_LIMIT,
        spec_line_amount(u, p) % 1000 == 0,
{
    assert(-2_000_000_000_000_000_000_000 <= u * p <= 2_000_000_000_000_000_000_000)
        by (nonlinear_arith)
        requires
            0 <= u <= 2_000_000_000_000,
            -1_000_000_000 <= p <= 1_000_000_000,
    ;
}

/// One merchant's billing record.  All decimal quantities are milli-units.
pub struct MerchantBill {
    /// Merchant name; records with an empty name are never built.
    pub merchant_name: String,
    /// Free-form shop code.
    pub shop_code: String,
    /// Water unit price.
    pub water_unit_price: i64,
    /// Electricity unit price, applied once to the summed usage.
    pub electricity_unit_price: i64,
    /// Water reading at the start of the period.
    pub prev_water_reading: i64,
    /// Water reading at the end of the period.
    pub curr_water_reading: i64,
    /// Derived water usage: difference floored at zero.
    pub water_usage: i64,
    /// Derived water amount, rounded to a whole currency unit at set time.
    pub water_amount: i64,
    /// The discovered meters, in column order.
    pub electricity_meters: Vec<ElectricityMeter>,
    /// Derived: summed usage over all meters.
    pub electricity_usage: i64,
    /// Derived: summed usage times unit price, rounded once.
    pub electricity_amount: i64,
    /// Flat labor surcharge, entered directly.
    pub water_electricity_labor_fee: i64,
    /// Flat garbage-disposal fee, entered directly.
    pub garbage_disposal_fee: i64,
    /// Name of the person who read the meters, when supplied.
    pub meter_reader: Option<String>,
    /// Date the meters were read, when supplied.
    pub meter_date: Option<String>,
    /// Derived: water and electricity amounts plus both flat fees.
    pub total_fee: i64,
    /// The billing month label, set at construction from the current date.
    pub month: String,
}

impl MerchantBill {
    /// The stored inputs are within the accepted ranges and every meter is
    /// well-formed for this record's unit price.
    pub open spec fn base_ok(self) -> bool {
        &&& -VALUE_LIMIT <= self.water_unit_price <= VALUE_LIMIT
        &&& -VALUE_LIMIT <= self.electricity_unit_price <= VALUE_LIMIT
        &&& -VALUE_LIMIT <= self.prev_water_reading <= VALUE_LIMIT
        &&& -VALUE_LIMIT <= self.curr_water_reading <= VALUE_LIMIT
        &&& -VALUE_LIMIT <= self.water_electricity_labor_fee <= VALUE_LIMIT
        &&& -VALUE_LIMIT <= self.garbage_disposal_fee <= VALUE_LIMIT
        &&& self.electricity_meters@.len() <= METER_LIMIT
        &&& forall|i: int|
            0 <= i < self.electricity_meters@.len() ==> meter_wf(
                #[trigger] self.electricity_meters@[i],
                self.electricity_unit_price as int,
            )
    }

    /// The derived water fields match their formulas.
    pub open spec fn water_ok(self) -> bool {
        &&& self.water_usage == spec_usage(
            self.prev_water_reading as int,
            self.curr_water_reading as int,
        )
        &&& self.water_amount == spec_line_amount(
            self.water_usage as int,
            self.water_unit_price as int,
        )
    }

    /// The derived electricity and total fields match their formulas: the
    /// usage of all meters is summed first, the unit price applied once,
    /// and the result rounded; the total adds both flat fees.
    pub open spec fn totals_ok(self) -> bool {
        &&& self.electricity_usage == sum_meter_usage(self.electricity_meters@)
        &&& self.electricity_amount == spec_line_amount(
            self.electricity_usage as int,
            self.electricity_unit_price as int,
        )
        &&& self.total_fee == self.water_amount + self.electricity_amount
            + self.water_electricity_labor_fee + self.garbage_disposal_fee
    }

    /// A fully consistent record: inputs in range and every derived field
    /// recomputed from the stored inputs.
    pub open spec fn wf(self) -> bool {
        self.base_ok() && self.water_ok() && self.totals_ok()
    }

    /// Builds an empty record for a merchant with the given unit prices;
    /// the month label is taken from the current date.
    pub fn new(merchant_name: String, water_unit_price: i64, electricity_unit_price: i64) -> (r:
        MerchantBill)
        requires
            -VALUE_LIMIT <= water_unit_price <= VALUE_LIMIT,
            -VALUE_LIMIT <= electricity_unit_price <= VALUE_LIMIT,
        ensures
            r.wf(),
            r.merchant_name == merchant_name,
            r.shop_code@ == Seq::<char>::empty(),
            r.water_unit_price == water_unit_price,
            r.electricity_unit_price == electricity_unit_price,
            r.prev_water_reading == 0,
            r.curr_water_reading == 0,
            r.water_usage == 0,
            r.water_amount == 0,
            r.electricity_meters@.len() == 0,
            r.electricity_usage == 0,
            r.electricity_amount == 0,
            r.water_electricity_labor_fee == 0,
            r.garbage_disposal_fee == 0,
            r.meter_reader is None,
            r.meter_date is None,
            r.total_fee == 0,
            exists|y: int, m: int|
                1 <= m <= 12 && r.month@ == #[trigger] spec_month_label(y, m),
    {
        let (y, m, _d, _h, _mi, _s) = now_parts();
        let label = month_label(y, m);
        MerchantBill {
            merchant_name,
            shop_code: String::new(),
            water_unit_price,
            electricity_unit_price,
            prev_water_reading: 0,
            curr_water_reading: 0,
            water_usage: 0,
            water_amount: 0,
            electricity_meters: Vec::new(),
            electricity_usage: 0,
            electricity_amount: 0,
            water_electricity_labor_fee: 0,
            garbage_disposal_fee: 0,
            meter_reader: None,
            meter_date: None,
            total_fee: 0,
            month: chars_to_string(&label),
        }
    }

    /// Stores the shop code; nothing else changes.
    pub fn set_shop_code(&mut self, code: String)
        ensures
            *final(self) == (MerchantBill { shop_code: code, ..*old(self) }),
    {
        self.shop_code = code;
    }

    /// Stores the meter reader and read date; nothing else changes.
    pub fn set_meter_info(&mut self, reader: Option<String>, date: Option<String>)
        ensures
            *final(self) == (MerchantBill { meter_reader: reader, meter_date: date, ..*old(self) }),
    {
        self.meter_reader = reader;
        self.meter_date = date;
    }

    /// Recomputes every derived electricity and total field from the stored
    /// inputs.  Safe to call any number of times.
    pub fn update_totals(&mut self)
        requires
            old(self).base_ok(),
            old(self).water_ok(),
        ensures
            final(self).wf(),
            *final(self) == (MerchantBill {
                electricity_usage: final(self).electricity_usage,
                electricity_amount: final(self).electricity_amount,
                total_fee: final(self).total_fee,
                ..*old(self)
            }),
    {
        let n = self.electricity_meters.len();
        let mut sum: i64 = 0;
        let mut i: usize = 0;
        while i < n
            invariant
                i <= n,
                n == self.electricity_meters@.len(),
                self.base_ok(),
                sum == sum_meter_usage(self.electricity_meters@.subrange(0, i as int)),
                0 <= sum <= i * (2 * VALUE_LIMIT),
            decreases n - i,
        {
            proof {
                let pre = self.electricity_meters@.subrange(0, i as int);
                let post = self.electricity_meters@.subrange(0, i as int + 1);
                assert(post.drop_last() =~= pre);
                assert(meter_wf(self.electricity_meters@[i as int],
                    self.electricity_unit_price as int));
            }
            sum = sum + self.electricity_meters[i].usage;
            i = i + 1;
        }
        proof {
            assert(self.electricity_meters@.subrange(0, n as int) =~= self.electricity_meters@);
        }
        proof {
            assert(sum <= 2_000_000_000_000) by (nonlinear_arith)
                requires
                    sum <= n * (2 * VALUE_LIMIT as int),
                    n <= 1000,
            ;
        }
        self.electricity_usage = sum;
        self.electricity_amount = line_amount_milli(sum, self.electricity_unit_price);
        proof {
            lemma_line_amount_bound(self.water_usage as int, self.water_unit_price as int);
        }
        self.total_fee = self.water_amount + self.electricity_amount
            + self.water_electricity_labor_fee + self.garbage_disposal_fee;
    }

    /// Stores the water readings, recomputes the water usage and amount,
    /// and brings every total up to date.
    pub fn set_water_readings(&mut self, prev: i64, curr: i64)
        requires
            old(self).base_ok(),
            -VALUE_LIMIT <= prev <= VALUE_LIMIT,
            -VALUE_LIMIT <= curr <= VALUE_LIMIT,
        ensures
            final(self).wf(),
            final(self).prev_water_reading == prev,
            final(self).curr_water_reading == curr,
            final(self).water_usage == spec_usage(prev as int, curr as int),
            final(self).water_amount == spec_line_amount(
                spec_usage(prev as int, curr as int),
                old(self).water_unit_price as int,
            ),
            *final(self) == (MerchantBill {
                prev_water_reading: prev,
                curr_water_reading: curr,
                water_usage: final(self).water_usage,
                water_amount: final(self).water_amount,
                electricity_usage: final(self).electricity_usage,
                electricity_amount: final(self).electricity_amount,
                total_fee: final(self).total_fee,
                ..*old(self)
            }),
    {
        self.prev_water_reading = prev;
        self.curr_water_reading = curr;
        self.water_usage = usage_of(prev, curr);
        self.water_amount = line_amount_milli(self.water_usage, self.water_unit_price);
        self.update_totals();
    }

    /// Appends one meter with the derived usage and display amount, and
    /// brings every total up to date.
    pub fn add_electricity_meter(&mut self, meter_id: String, prev: i64, curr: i64)
        requires
            old(self).base_ok(),
            old(self).water_ok(),
            old(self).electricity_meters@.len() < METER_LIMIT,
            -VALUE_LIMIT <= prev <= VALUE_LIMIT,
            -VALUE_LIMIT <= curr <= VALUE_LIMIT,
        ensures
            final(self).wf(),
            final(self).electricity_meters@ == old(self).electricity_meters@.push(
                ElectricityMeter {
                    meter_id,
                    prev_reading: prev,
                    curr_reading: curr,
                    usage: final(self).electricity_meters@.last().usage,
                    amount: final(self).electricity_meters@.last().amount,
                },
            ),
            final(self).electricity_meters@.last().usage == spec_usage(prev as int, curr as int),
            final(self).electricity_meters@.last().amount == spec_line_amount(
                spec_usage(prev as int, curr as int),
                old(self).electricity_unit_price as int,
            ),
            *final(self) == (MerchantBill {
                electricity_meters: final(self).electricity_meters,
                electricity_usage: final(self).electricity_usage,
                electricity_amount: final(self).electricity_amount,
                total_fee: final(self).total_fee,
                ..*old(self)
            }),
    {
        let usage = usage_of(prev, curr);
        let amount = line_amount_milli(usage, self.electricity_unit_price);
        self.electricity_meters.push(
            ElectricityMeter { meter_id, prev_reading: prev, curr_reading: curr, usage, amount },
        );
        self.update_totals();
    }

    /// Stores both flat fees and brings every total up to date.
    pub fn set_additional_fees(&mut self, labor_fee: i64, garbage_fee: i64)
        requires
            old(self).base_ok(),
            old(self).water_ok(),
            -VALUE_LIMIT <= labor_fee <= VALUE_LIMIT,
            -VALUE_LIMIT <= garbage_fee <= VALUE_LIMIT,
        ensures
            final(self).wf(),
            final(self).water_electricity_labor_fee == labor_fee,
            final(self).garbage_disposal_fee == garbage_fee,
            *final(self) == (MerchantBill {
                water_electricity_labor_fee: labor_fee,
                garbage_disposal_fee: garbage_fee,
                electricity_usage: final(self).electricity_usage,
                electricity_amount: final(self).electricity_amount,
                total_fee: final(self).total_fee,
                ..*old(self)
            }),
    {
        self.water_electricity_labor_fee = labor_fee;
        self.garbage_disposal_fee = garbage_fee;
        self.update_totals();
    }

    /// One line of the meter detail text.
    pub open spec fn spec_meter_detail(m: ElectricityMeter) -> Seq<char> {
        "电表"@ + m.meter_id@ + ": 上期"@ + spec_fmt_plain_milli(m.prev_reading as int) + "度, 本期"@
            + spec_fmt_plain_milli(m.curr_reading as int) + "度, 用量"@ + spec_fmt_plain_milli(
            m.usage as int,
        ) + "度, 费用"@ + spec_fmt_fix2_milli(m.amount as int) + "元"@
    }

    /// The meter detail lines joined by newlines; a fixed placeholder when
    /// the record has no meters.
    pub open spec fn spec_details(s: Seq<ElectricityMeter>) -> Seq<char>
        decreases s.len(),
    {
        if s.len() == 0 {
            "无电表数据"@
        } else if s.len() == 1 {
            Self::spec_meter_detail(s[0])
        } else {
            Self::spec_details(s.drop_last()) + seq!['\n'] + Self::spec_meter_detail(s.last())
        }
    }

    /// One detail line per meter, joined by newlines, for template display.
    pub fn get_electricity_details(&self) -> (r: String)
        requires
            self.base_ok(),
        ensures
            r@ == Self::spec_details(self.electricity_meters@),
    {
        if self.electricity_meters.len() == 0 {
            return String::from_str("无电表数据");
        }
        let mut out: Vec<char> = Vec::new();
        let mut i: usize = 0;
        while i < self.electricity_meters.len()
            invariant
                i <= self.electricity_meters@.len(),
                self.base_ok(),
                i == 0 ==> out@ == Seq::<char>::empty(),
                i > 0 ==> out@ == Self::spec_details(
                    self.electricity_meters@.subrange(0, i as int),
                ),
            decreases self.electricity_meters@.len() - i,
        {
            if i > 0 {
                out.push('\n');
            }
            let m = &self.electricity_meters[i];
            proof {
                assert(meter_wf(self.electricity_meters@[i as int],
                    self.electricity_unit_price as int));
                lemma_line_amount_bound(
                    self.electricity_meters@[i as int].usage as int,
                    self.electricity_unit_price as int,
                );
            }
            let part = str_chars("电表");
            append_chars(&mut out, &part);
            let idchars = str_chars(m.meter_id.as_str());
            append_chars(&mut out, &idchars);
            let part = str_chars(": 上期");
            append_chars(&mut out, &part);
            let prevc = fmt_plain_milli(m.prev_reading as i128);
            append_chars(&mut out, &prevc);
            let part = str_chars("度, 本期");
            append_chars(&mut out, &part);
            let currc = fmt_plain_milli(m.curr_reading as i128);
            append_chars(&mut out, &currc);
            let part = str_chars("度, 用量");
            append_chars(&mut out, &part);
            let usagec = fmt_plain_milli(m.usage as i128);
            append_chars(&mut out, &usagec);
            let part = str_chars("度, 费用");
            append_chars(&mut out, &part);
            let amountc = fmt_fix2_milli(m.amount as i128);
            append_chars(&mut out, &amountc);
            let part = str_chars("元");
            append_chars(&mut out, &part);
            proof {
                let s = self.electricity_meters@;
                assert(s.subrange(0, i as int + 1).drop_last() =~= s.subrange(0, i as int));
                assert(s.subrange(0, i as int + 1).last() == s[i as int]);
                if i == 0 {
                    assert(out@ =~= Self::spec_details(s.subrange(0, 1)));
                } else {
                    assert(out@ =~= Self::spec_details(s.subrange(0, i as int + 1)));
                }
            }
            i = i + 1;
        }
        proof {
            assert(self.electricity_meters@.subrange(0, self.electricity_meters@.len() as int)
                =~= self.electricity_meters@);
        }
        chars_to_string(&out)
    }
}

/// The summed water usage of a sequence of records.
pub open spec fn sum_water_usage(s: Seq<MerchantBill>) -> int
    decreases s.len(),
{
    if s.len() == 0 {
        0
    } else {
        sum_water_usage(s.drop_last()) + s.last().water_usage
    }
}

/// The summed electricity usage of a sequence of records.
pub open spec fn sum_electricity_usage(s: Seq<MerchantBill>) -> int
    decreases s.len(),
{
    if s.len() == 0 {
        0
    } else {
        sum_electricity_usage(s.drop_last()) + s.last().electricity_usage
    }
}

/// The summed water amounts of a sequence of records.
pub open spec fn sum_water_amount(s: Seq<MerchantBill>) -> int
    decreases s.len(),
{
    if s.len() == 0 {
        0
    } else {
        sum_water_amount(s.drop_last()) + s.last().water_amount
    }
}

/// The summed electricity amounts of a sequence of records.
pub open spec fn sum_electricity_amount(s: Seq<MerchantBill>) -> int
    decreases s.len(),
{
    if s.len() == 0 {
        0
    } else {
        sum_electricity_amount(s.drop_last()) + s.last().electricity_amount
    }
}

/// The summed total fees of a sequence of records.
pub open spec fn sum_total_fee(s: Seq<MerchantBill>) -> int
    decreases s.len(),
{
    if s.len() == 0 {
        0
    } else {
        sum_total_fee(s.drop_last()) + s.last().total_fee
    }
}

/// Uniform bound on the summed fields of a well-formed record.
pub const FIELD_BOUND: i64 = 5_000_000_000_000_000_000;

/// Every summed field of a well-formed record is within the uniform bound.
pub proof fn lemma_wf_field_bounds(b: MerchantBill)
    requires
        b.wf(),
    ensures
        0 <= b.water_usage <= FIELD_BOUND,
        0 <= b.electricity_usage <= FIELD_BOUND,
        -FIELD_BOUND <= b.water_amount <= FIELD_BOUND,
        -FIELD_BOUND <= b.electricity_amount <= FIELD_BOUND,
        -FIELD_BOUND <= b.total_fee <= FIELD_BOUND,
{
    assert forall|i: int|
        0 <= i < b.electricity_meters@.len() implies 0 <= #[trigger] b.electricity_meters@[i].usage
        <= 2 * VALUE_LIMIT by {
        assert(meter_wf(b.electricity_meters@[i], b.electricity_unit_price as int));
    }
    lemma_sum_usage_bound(b.electricity_meters@);
    assert(b.electricity_meters@.len() * (2 * VALUE_LIMIT as int) <= 1000 * (2
        * VALUE_LIMIT as int)) by (nonlinear_arith)
        requires
            b.electricity_meters@.len() <= 1000,
    ;
    lemma_line_amount_bound(b.water_usage as int, b.water_unit_price as int);
    lemma_line_amount_bound(b.electricity_usage as int, b.electricity_unit_price as int);
}

/// The summed fields of well-formed records are bounded by the record count
/// times the uniform field bound.
pub proof fn lemma_batch_sums_bound(s: Seq<MerchantBill>)
    requires
        forall|i: int| 0 <= i < s.len() ==> (#[trigger] s[i]).wf(),
    ensures
        -(s.len() * FIELD_BOUND as int) <= sum_water_usage(s) <= s.len() * FIELD_BOUND as int,
        -(s.len() * FIELD_BOUND as int) <= sum_electricity_usage(s) <= s.len()
            * FIELD_BOUND as int,
        -(s.len() * FIELD_BOUND as int) <= sum_water_amount(s) <= s.len() * FIELD_BOUND as int,
        -(s.len() * FIELD_BOUND as int) <= sum_electricity_amount(s) <= s.len()
            * FIELD_BOUND as int,
        -(s.len() * FIELD_BOUND as int) <= sum_total_fee(s) <= s.len() * FIELD_BOUND as int,
    decreases s.len(),
{
    if s.len() > 0 {
        assert forall|i: int|
            0 <= i < s.drop_last().len() implies (#[trigger] s.drop_last()[i]).wf() by {
            assert(s.drop_last()[i] == s[i]);
        }
        lemma_batch_sums_bound(s.drop_last());
        lemma_wf_field_bounds(s.last());
        assert((s.len() - 1) * FIELD_BOUND as int + FIELD_BOUND as int == s.len()
            * FIELD_BOUND as int) by (nonlinear_arith);
    }
}

/// An append-only batch of records with running totals.
pub struct BillTemplate {
    /// Month label for the batch.
    pub month: String,
    /// Year label for the batch.
    pub year: String,
    /// The records, in append order.
    pub merchants: Vec<MerchantBill>,
    /// Running sum of every record's water usage.
    pub total_water_usage: i128,
    /// Running sum of every record's electricity usage.
    pub total_electric_usage: i128,
    /// Running sum of every record's water amount.
    pub total_water_amount: i128,
    /// Running sum of every record's electricity amount.
    pub total_electric_amount: i128,
    /// Running sum of every record's total fee.
    pub grand_total: i128,
}

impl BillTemplate {
    /// Every member record is consistent and each running total equals the
    /// sum of the corresponding field over the member records.
    pub open spec fn wf(self) -> bool {
        &&& forall|i: int| 0 <= i < self.merchants@.len() ==> (#[trigger] self.merchants@[i]).wf()
        &&& self.total_water_usage == sum_water_usage(self.merchants@)
        &&& self.total_electric_usage == sum_electricity_usage(self.merchants@)
        &&& self.total_water_amount == sum_water_amount(self.merchants@)
        &&& self.total_electric_amount == sum_electricity_amount(self.merchants@)
        &&& self.grand_total == sum_total_fee(self.merchants@)
    }

    /// Builds an empty batch with the given labels.
    pub fn new(month: String, year: String) -> (r: BillTemplate)
        ensures
            r.wf(),
            r.month == month,
            r.year == year,
            r.merchants@.len() == 0,
            r.total_water_usage == 0,
            r.total_electric_usage == 0,
            r.total_water_amount == 0,
            r.total_electric_amount == 0,
            r.grand_total == 0,
    {
        BillTemplate {
            month,
            year,
            merchants: Vec::new(),
            total_water_usage: 0,
            total_electric_usage: 0,
            total_water_amount: 0,
            total_electric_amount: 0,
            grand_total: 0,
        }
    }

    /// Appends one record and extends every running total by its fields.
    pub fn add_merchant(&mut self, merchant: MerchantBill)
        requires
            old(self).wf(),
            merchant.wf(),
        ensures
            final(self).wf(),
            final(self).merchants@ == old(self).merchants@.push(merchant),
            final(self).month == old(self).month,
            final(self).year == old(self).year,
    {
        proof {
            assert(self.merchants@.len() <= usize::MAX) by {
                assert(vstd::std_specs::vec::spec_vec_len(&self.merchants)
                    == self.merchants@.len());
            }
            lemma_batch_sums_bound(self.merchants@);
            lemma_wf_field_bounds(merchant);
            assert(self.merchants@.len() * FIELD_BOUND as int <= 18446744073709551615
                * FIELD_BOUND as int) by (nonlinear_arith)
                requires
                    self.merchants@.len() <= 18446744073709551615,
            ;
        }
        let ghost pre = self.merchants@;
        self.total_water_usage = self.total_water_usage + merchant.water_usage as i128;
        self.total_electric_usage = self.total_electric_usage + merchant.electricity_usage as i128;
        self.total_water_amount = self.total_water_amount + merchant.water_amount as i128;
        self.total_electric_amount = self.total_electric_amount
            + merchant.electricity_amount as i128;
        self.grand_total = self.grand_total + merchant.total_fee as i128;
        self.merchants.push(merchant);
        proof {
            assert(self.merchants@.drop_last() =~= pre);
            assert forall|i: int|
                0 <= i < self.merchants@.len() implies (#[trigger] self.merchants@[i]).wf() by {
                if i < pre.len() {
                    assert(self.merchants@[i] == pre[i]);
                }
            }
        }
    }
}

/// Usage never comes out negative: it is the reading difference when the
/// current reading is at least the previous one, and zero otherwise.
pub proof fn lemma_usage_never_negative(prev: int, curr: int)
    ensures
        spec_usage(prev, curr) >= 0,
        curr >= prev ==> spec_usage(prev, curr) == curr - prev,
        curr < prev ==> spec_usage(prev, curr) == 0,
{
}

/// The aggregate electricity amount of a consistent record is the rounded
/// product of the summed meter usage and the unit price — rounding is
/// applied once to the aggregate, never per meter.
pub proof fn lemma_electricity_total_rule(b: MerchantBill)
    requires
        b.wf(),
    ensures
        b.electricity_amount == spec_line_amount(
            sum_meter_usage(b.electricity_meters@),
            b.electricity_unit_price as int,
        ),
{
}

/// In a consistent batch the grand total is exactly the sum of the member
/// records' total fees, and each aggregate column is exactly the sum of the
/// corresponding member field.
pub proof fn lemma_batch_totals(t: BillTemplate)
    requires
        t.wf(),
    ensures
        t.grand_total == sum_total_fee(t.merchants@),
        t.total_water_amount == sum_water_amount(t.merchants@),
        t.total_electric_amount == sum_electricity_amount(t.merchants@),
        t.total_water_usage == sum_water_usage(t.merchants@),
        t.total_electric_usage == sum_electricity_usage(t.merchants@),
{
}

} // verus!
