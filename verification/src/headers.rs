//! Column discovery in a loosely structured header row.
//!
//! Labels are matched fuzzily: both the header and the wanted label are
//! normalized (whitespace removed, ASCII letters folded to lower case) and
//! a header matches when it contains the normalized label.  Meter column
//! pairs are discovered by looking for numbered reading labels with a
//! shared prefix, counting upward until a number is missing.

use vstd::prelude::*;
use crate::text::{spec_normal, spec_contains, normal_chars, contains_chars, str_chars,
    chars_to_string, chars_equal};
use crate::num::{spec_nat_digits, nat_digits_u128, append_chars};
use crate::BillError;

verus! {

/// A normalized label: whitespace removed, ASCII letters in lower case.
pub fn normalize(s: &str) -> (r: String)
    ensures
        r@ == spec_normal(s@),
{
    let cs = str_chars(s);
    let n = normal_chars(&cs);
    chars_to_string(&n)
}

/// Whether a header label matches a wanted label: the normalized header
/// contains the normalized wanted label.
pub open spec fn spec_header_matches(h: Seq<char>, want: Seq<char>) -> bool {
    spec_contains(spec_normal(h), spec_normal(want))
}

/// Whether `i` is the first header matching `want`.
pub open spec fn spec_first_match(dv: Seq<Seq<char>>, want: Seq<char>, i: int) -> bool {
    &&& 0 <= i < dv.len()
    &&& spec_header_matches(dv[i], want)
    &&& forall|j: int| 0 <= j < i ==> !spec_header_matches(#[trigger] dv[j], want)
}

/// The header views of a header row.
pub open spec fn spec_headers_view(headers: Seq<String>) -> Seq<Seq<char>> {
    Seq::new(headers.len(), |i: int| headers[i]@)
}

/// Finds the first header whose normalized text contains the normalized
/// pattern.
pub fn find_in_headers(headers: &Vec<String>, pattern: &Vec<char>) -> (r: Option<usize>)
    ensures
        match r {
            Some(i) => spec_first_match(spec_headers_view(headers@), pattern@, i as int),
            None => forall|j: int|
                0 <= j < headers@.len() ==> !spec_header_matches(
                    #[trigger] spec_headers_view(headers@)[j],
                    pattern@,
                ),
        },
{
    let want = normal_chars(pattern);
    let mut i: usize = 0;
    while i < headers.len()
        invariant
            i <= headers@.len(),
            want@ == spec_normal(pattern@),
            forall|j: int|
                0 <= j < i ==> !spec_header_matches(
                    #[trigger] spec_headers_view(headers@)[j],
                    pattern@,
                ),
        decreases headers@.len() - i,
    {
        let hc = str_chars(headers[i].as_str());
        let hn = normal_chars(&hc);
        if contains_chars(&hn, &want) {
            return Some(i);
        }
        i = i + 1;
    }
    None
}

/// Whether a header matches either of two wanted labels exactly after
/// normalization.
pub open spec fn spec_cand_exact(h: Seq<char>, w: Seq<char>, f: Seq<char>) -> bool {
    spec_normal(h) == spec_normal(w) || spec_normal(h) == spec_normal(f)
}

/// Whether a header contains either of two wanted labels after
/// normalization.
pub open spec fn spec_cand_contains(h: Seq<char>, w: Seq<char>, f: Seq<char>) -> bool {
    spec_header_matches(h, w) || spec_header_matches(h, f)
}

/// The resolved index for one wanted/fallback label pair: the first exact
/// normalized match when one exists, otherwise the first containing match.
pub open spec fn spec_resolved_index(dv: Seq<Seq<char>>, w: Seq<char>, f: Seq<char>, i: int) -> bool {
    if exists|j: int| 0 <= j < dv.len() && spec_cand_exact(#[trigger] dv[j], w, f) {
        &&& 0 <= i < dv.len()
        &&& spec_cand_exact(dv[i], w, f)
        &&& forall|j: int| 0 <= j < i ==> !spec_cand_exact(#[trigger] dv[j], w, f)
    } else {
        &&& 0 <= i < dv.len()
        &&& spec_cand_contains(dv[i], w, f)
        &&& forall|j: int| 0 <= j < i ==> !spec_cand_contains(#[trigger] dv[j], w, f)
    }
}

/// Resolves one wanted/fallback label pair to a column index: the first
/// exactly matching header when one exists, otherwise the first containing
/// header; nothing when no header matches at all.
fn resolve_one(headers: &Vec<String>, want: &str, fallback: &str) -> (r: Option<usize>)
    ensures
        match r {
            Some(i) => spec_resolved_index(spec_headers_view(headers@), want@, fallback@, i as int),
            None => forall|j: int|
                0 <= j < headers@.len() ==> !spec_cand_contains(
                    #[trigger] spec_headers_view(headers@)[j],
                    want@,
                    fallback@,
                ),
        },
{
    let wc = str_chars(want);
    let wn = normal_chars(&wc);
    let fc = str_chars(fallback);
    let fn_ = normal_chars(&fc);
    let ghost dv = spec_headers_view(headers@);
    let mut i: usize = 0;
    let mut exact: Option<usize> = None;
    while i < headers.len()
        invariant
            i <= headers@.len(),
            wn@ == spec_normal(want@),
            fn_@ == spec_normal(fallback@),
            dv == spec_headers_view(headers@),
            exact is None ==> forall|j: int|
                0 <= j < i ==> !spec_cand_exact(#[trigger] dv[j], want@, fallback@),
            match exact {
                Some(e) => {
                    &&& 0 <= e < i
                    &&& spec_cand_exact(dv[e as int], want@, fallback@)
                    &&& forall|j: int|
                        0 <= j < e ==> !spec_cand_exact(#[trigger] dv[j], want@, fallback@)
                },
                None => true,
            },
        decreases headers@.len() - i,
    {
        let hc = str_chars(headers[i].as_str());
        let hn = normal_chars(&hc);
        if exact.is_none() {
            if chars_equal(&hn, &wn) || chars_equal(&hn, &fn_) {
                exact = Some(i);
            }
        }
        i = i + 1;
    }
    if let Some(e) = exact {
        return Some(e);
    }
    let mut i: usize = 0;
    while i < headers.len()
        invariant
            i <= headers@.len(),
            wn@ == spec_normal(want@),
            fn_@ == spec_normal(fallback@),
            dv == spec_headers_view(headers@),
            forall|j: int|
                0 <= j < headers@.len() ==> !spec_cand_exact(#[trigger] dv[j], want@, fallback@),
            forall|j: int| 0 <= j < i ==> !spec_cand_contains(#[trigger] dv[j], want@, fallback@),
        decreases headers@.len() - i,
    {
        let hc = str_chars(headers[i].as_str());
        let hn = normal_chars(&hc);
        if contains_chars(&hn, &wn) || contains_chars(&hn, &fn_) {
            return Some(i);
        }
        i = i + 1;
    }
    None
}

/// Resolves a list of wanted/fallback label pairs to column indices.
/// Exactly matching headers are preferred over merely containing ones.
/// Fails naming the first wanted label that no header matches.
pub fn find_indices(headers: &Vec<String>, mapping: &Vec<(&str, &str)>) -> (r: Result<
    Vec<usize>,
    BillError,
>)
    ensures
        match r {
            Ok(idxs) => {
                &&& idxs@.len() == mapping@.len()
                &&& forall|k: int|
                    0 <= k < mapping@.len() ==> spec_resolved_index(
                        spec_headers_view(headers@),
                        (#[trigger] mapping@[k]).0@,
                        mapping@[k].1@,
                        idxs@[k] as int,
                    )
            },
            Err(e) => {
                &&& e is ColumnNotFound
                &&& exists|k: int|
                    {
                        &&& 0 <= k < mapping@.len()
                        &&& e->ColumnNotFound_0@ == (#[trigger] mapping@[k]).0@
                        &&& forall|j: int|
                            0 <= j < headers@.len() ==> !spec_cand_contains(
                                #[trigger] spec_headers_view(headers@)[j],
                                mapping@[k].0@,
                                mapping@[k].1@,
                            )
                    }
            },
        },
{
    let mut idxs: Vec<usize> = Vec::new();
    let mut k: usize = 0;
    while k < mapping.len()
        invariant
            k <= mapping@.len(),
            idxs@.len() == k,
            forall|k2: int|
                0 <= k2 < k ==> spec_resolved_index(
                    spec_headers_view(headers@),
                    (#[trigger] mapping@[k2]).0@,
                    mapping@[k2].1@,
                    idxs@[k2] as int,
                ),
        decreases mapping@.len() - k,
    {
        let (want, fallback) = mapping[k];
        match resolve_one(headers, want, fallback) {
            Some(i) => {
                idxs.push(i);
            },
            None => {
                return Err(BillError::ColumnNotFound(String::from_str(want)));
            },
        }
        k = k + 1;
    }
    Ok(idxs)
}

/// The wanted header labels for one input table, by logical field.
pub struct HeadersMap<'a> {
    /// Merchant-name column label.
    pub merchant: &'a str,
    /// Previous electricity reading label for the dedicated first meter.
    pub prev_e: &'a str,
    /// Current electricity reading label for the dedicated first meter.
    pub curr_e: &'a str,
    /// Previous water reading label.
    pub prev_w: &'a str,
    /// Current water reading label.
    pub curr_w: &'a str,
    /// Water unit price label.
    pub w_price: &'a str,
    /// Electricity unit price label.
    pub e_price: &'a str,
    /// Electricity unit price label as supplied by callers.
    pub electricity_price: &'a str,
    /// Shared prefix of the numbered meter reading labels.
    pub electricity_prefix: &'a str,
    /// Labor surcharge label.
    pub water_electricity_labor_fee: &'a str,
    /// Garbage-disposal fee label.
    pub garbage_disposal_fee: &'a str,
}

impl<'a> HeadersMap<'a> {
    /// The wanted/fallback label pairs for the basic (non-meter) columns.
    pub fn to_pairs(&self) -> (r: Vec<(&'a str, &'a str)>)
        ensures
            r@.len() == 5,
            r@[0].0@ == self.merchant@ && r@[0].1@ == "店铺名称"@,
            r@[1].0@ == self.prev_w@ && r@[1].1@ == "上期水表读数"@,
            r@[2].0@ == self.curr_w@ && r@[2].1@ == "本期水表读数"@,
            r@[3].0@ == self.w_price@ && r@[3].1@ == "水费单价"@,
            r@[4].0@ == self.electricity_price@ && r@[4].1@ == "电费单价"@,
    {
        let mut v: Vec<(&'a str, &'a str)> = Vec::new();
        v.push((self.merchant, "店铺名称"));
        v.push((self.prev_w, "上期水表读数"));
        v.push((self.curr_w, "本期水表读数"));
        v.push((self.w_price, "水费单价"));
        v.push((self.electricity_price, "电费单价"));
        v
    }
}

/// The default header labels of the standard input table.
pub fn get_default_headers() -> (r: HeadersMap<'static>)
    ensures
        r.merchant@ == "店铺名称"@,
        r.prev_e@ == "电表1上期读数"@,
        r.curr_e@ == "电表1本期读数"@,
        r.prev_w@ == "上期水表读数"@,
        r.curr_w@ == "本期水表读数"@,
        r.w_price@ == "水费单价"@,
        r.e_price@ == "电费单价"@,
        r.electricity_price@ == "电费单价"@,
        r.electricity_prefix@ == "电表"@,
        r.water_electricity_labor_fee@ == "水电人工费"@,
        r.garbage_disposal_fee@ == "垃圾处理费"@,
{
    HeadersMap {
        merchant: "店铺名称",
        prev_e: "电表1上期读数",
        curr_e: "电表1本期读数",
        prev_w: "上期水表读数",
        curr_w: "本期水表读数",
        w_price: "水费单价",
        e_price: "电费单价",
        electricity_price: "电费单价",
        electricity_prefix: "电表",
        water_electricity_labor_fee: "水电人工费",
        garbage_disposal_fee: "垃圾处理费",
    }
}

/// The numbered previous-reading label of meter `n`.
pub open spec fn spec_prev_pattern(prefix: Seq<char>, n: int) -> Seq<char> {
    prefix + spec_nat_digits(n) + "上期读数"@
}

/// The numbered current-reading label of meter `n`.
pub open spec fn spec_curr_pattern(prefix: Seq<char>, n: int) -> Seq<char> {
    prefix + spec_nat_digits(n) + "本期读数"@
}

/// Whether both numbered reading labels of meter `n` occur in the header
/// row.
pub open spec fn spec_meter_found(dv: Seq<Seq<char>>, prefix: Seq<char>, n: int) -> bool {
    &&& exists|i: int|
        0 <= i < dv.len() && spec_header_matches(#[trigger] dv[i], spec_prev_pattern(prefix, n))
    &&& exists|i: int|
        0 <= i < dv.len() && spec_header_matches(#[trigger] dv[i], spec_curr_pattern(prefix, n))
}

/// One more than the total number of characters over all headers: a bound
/// that meter discovery can never reach, since every found meter number
/// needs a fresh occurrence of its numbered label in some header.
pub open spec fn spec_header_cap(dv: Seq<Seq<char>>) -> int
    decreases dv.len(),
{
    if dv.len() == 0 {
        1
    } else {
        spec_header_cap(dv.drop_last()) + dv.last().len()
    }
}

/// The discovery cap, saturated to the machine word.
pub open spec fn spec_cap_sat(dv: Seq<Seq<char>>) -> int {
    if spec_header_cap(dv) > usize::MAX as int {
        usize::MAX as int
    } else {
        spec_header_cap(dv)
    }
}

/// Computes the discovery cap.
fn header_cap(headers: &Vec<String>) -> (r: usize)
    ensures
        r == spec_cap_sat(spec_headers_view(headers@)),
        r >= 1,
{
    let ghost dv = spec_headers_view(headers@);
    let mut cap: usize = 1;
    let mut i: usize = 0;
    proof {
        assert(dv.subrange(0, 0) =~= Seq::<Seq<char>>::empty());
    }
    while i < headers.len()
        invariant
            i <= headers@.len(),
            dv == spec_headers_view(headers@),
            1 <= cap,
            cap as int == spec_cap_sat(dv.subrange(0, i as int)) || (cap == usize::MAX
                && spec_header_cap(dv.subrange(0, i as int)) >= usize::MAX as int),
        decreases headers@.len() - i,
    {
        let n = headers[i].as_str().unicode_len();
        proof {
            assert(dv.subrange(0, i as int + 1).drop_last() =~= dv.subrange(0, i as int));
            assert(dv.subrange(0, i as int + 1).last() == headers@[i as int]@);
        }
        if n > usize::MAX - cap {
            cap = usize::MAX;
        } else {
            cap = cap + n;
        }
        i = i + 1;
    }
    proof {
        assert(dv.subrange(0, dv.len() as int) =~= dv);
    }
    cap
}

/// The resolved column index of each required logical field.
pub struct ColumnIndices {
    /// Shop-code column.
    pub shop_code: usize,
    /// Merchant-name column.
    pub merchant: usize,
    /// Previous-reading column of the dedicated first meter.
    pub meter1_prev: usize,
    /// Current-reading column of the dedicated first meter.
    pub meter1_curr: usize,
    /// Previous water reading column.
    pub water_prev: usize,
    /// Current water reading column.
    pub water_curr: usize,
    /// Water unit price column.
    pub water_price: usize,
    /// Electricity unit price column.
    pub electricity_price: usize,
    /// Labor surcharge column.
    pub labor_fee: usize,
    /// Garbage-disposal fee column.
    pub garbage_fee: usize,
}

/// Every required column resolved: each index is the first header matching
/// its fixed label.
pub open spec fn spec_columns_resolved(dv: Seq<Seq<char>>, ci: ColumnIndices) -> bool {
    &&& spec_first_match(dv, "铺面编号"@, ci.shop_code as int)
    &&& spec_first_match(dv, "店铺名称"@, ci.merchant as int)
    &&& spec_first_match(dv, "电表1上期读数"@, ci.meter1_prev as int)
    &&& spec_first_match(dv, "电表1本期读数"@, ci.meter1_curr as int)
    &&& spec_first_match(dv, "上期水表读数"@, ci.water_prev as int)
    &&& spec_first_match(dv, "本期水表读数"@, ci.water_curr as int)
    &&& spec_first_match(dv, "水费单价"@, ci.water_price as int)
    &&& spec_first_match(dv, "电费单价"@, ci.electricity_price as int)
    &&& spec_first_match(dv, "水电人工费"@, ci.labor_fee as int)
    &&& spec_first_match(dv, "垃圾处理费"@, ci.garbage_fee as int)
}

/// Whether `l` is one of the required labels and no header matches it.
pub open spec fn spec_missing_label(dv: Seq<Seq<char>>, l: Seq<char>) -> bool {
    &&& (l == "铺面编号"@ || l == "店铺名称"@ || l == "电表1上期读数"@ || l == "电表1本期读数"@ || l
        == "上期水表读数"@ || l == "本期水表读数"@ || l == "水费单价"@ || l == "电费单价"@ || l == "水电人工费"@ || l
        == "垃圾处理费"@)
    &&& forall|j: int| 0 <= j < dv.len() ==> !spec_header_matches(#[trigger] dv[j], l)
}

/// Finds the first header matching one required label, or fails naming it.
fn require_column(headers: &Vec<String>, label: &str) -> (r: Result<usize, BillError>)
    ensures
        match r {
            Ok(i) => spec_first_match(spec_headers_view(headers@), label@, i as int),
            Err(e) => {
                &&& e is ColumnNotFound
                &&& e->ColumnNotFound_0@ == label@
                &&& forall|j: int|
                    0 <= j < headers@.len() ==> !spec_header_matches(
                        #[trigger] spec_headers_view(headers@)[j],
                        label@,
                    )
            },
        },
{
    let pattern = str_chars(label);
    match find_in_headers(headers, &pattern) {
        Some(i) => Ok(i),
        None => Err(BillError::ColumnNotFound(String::from_str(label))),
    }
}

/// Resolves every required column by its fixed label, failing with the
/// first label that no header matches.
pub fn resolve_required_columns(headers: &Vec<String>) -> (r: Result<ColumnIndices, BillError>)
    ensures
        match r {
            Ok(ci) => spec_columns_resolved(spec_headers_view(headers@), ci),
            Err(e) => {
                &&& e is ColumnNotFound
                &&& spec_missing_label(spec_headers_view(headers@), e->ColumnNotFound_0@)
            },
        },
{
    let shop_code = match require_column(headers, "铺面编号") {
        Ok(i) => i,
        Err(e) => {
            return Err(e);
        },
    };
    let merchant = match require_column(headers, "店铺名称") {
        Ok(i) => i,
        Err(e) => {
            return Err(e);
        },
    };
    let meter1_prev = match require_column(headers, "电表1上期读数") {
        Ok(i) => i,
        Err(e) => {
            return Err(e);
        },
    };
    let meter1_curr = match require_column(headers, "电表1本期读数") {
        Ok(i) => i,
        Err(e) => {
            return Err(e);
        },
    };
    let water_prev = match require_column(headers, "上期水表读数") {
        Ok(i) => i,
        Err(e) => {
            return Err(e);
        },
    };
    let water_curr = match require_column(headers, "本期水表读数") {
        Ok(i) => i,
        Err(e) => {
            return Err(e);
        },
    };
    let water_price = match require_column(headers, "水费单价") {
        Ok(i) => i,
        Err(e) => {
            return Err(e);
        },
    };
    let electricity_price = match require_column(headers, "电费单价") {
        Ok(i) => i,
        Err(e) => {
            return Err(e);
        },
    };
    let labor_fee = match require_column(headers, "水电人工费") {
        Ok(i) => i,
        Err(e) => {
            return Err(e);
        },
    };
    let garbage_fee = match require_column(headers, "垃圾处理费") {
        Ok(i) => i,
        Err(e) => {
            return Err(e);
        },
    };
    Ok(
        ColumnIndices {
            shop_code,
            merchant,
            meter1_prev,
            meter1_curr,
            water_prev,
            water_curr,
            water_price,
            electricity_price,
            labor_fee,
            garbage_fee,
        },
    )
}

/// Discovers the meter column pairs: for each meter number from one
/// upward, the first header matching the numbered previous-reading label
/// and the first matching the numbered current-reading label, stopping at
/// the first number for which either is missing.  Fails when not even the
/// first meter's pair is present.
pub fn find_electricity_columns(headers: &Vec<String>, prefix: &str) -> (r: Result<
    Vec<(usize, usize)>,
    BillError,
>)
    ensures
        match r {
            Ok(cols) => {
                &&& cols@.len() >= 1
                &&& cols@.len() <= spec_cap_sat(spec_headers_view(headers@))
                &&& forall|k: int|
                    0 <= k < cols@.len() ==> spec_first_match(
                        spec_headers_view(headers@),
                        spec_prev_pattern(prefix@, k + 1),
                        (#[trigger] cols@[k]).0 as int,
                    ) && spec_first_match(
                        spec_headers_view(headers@),
                        spec_curr_pattern(prefix@, k + 1),
                        cols@[k].1 as int,
                    )
                &&& cols@.len() < spec_cap_sat(spec_headers_view(headers@))
                    ==> !spec_meter_found(
                    spec_headers_view(headers@),
                    prefix@,
                    cols@.len() as int + 1,
                )
            },
            Err(e) => {
                &&& e is NoMeterColumns
                &&& e->NoMeterColumns_0@ == prefix@
                &&& !spec_meter_found(spec_headers_view(headers@), prefix@, 1)
            },
        },
{
    let ghost dv = spec_headers_view(headers@);
    let cap = header_cap(headers);
    let prefix_chars = str_chars(prefix);
    let suffix_prev = str_chars("上期读数");
    let suffix_curr = str_chars("本期读数");
    let mut cols: Vec<(usize, usize)> = Vec::new();
    let mut stopped: bool = false;
    while !stopped && cols.len() < cap
        invariant
            cols@.len() <= cap,
            dv == spec_headers_view(headers@),
            cap == spec_cap_sat(dv),
            prefix_chars@ == prefix@,
            suffix_prev@ == "上期读数"@,
            suffix_curr@ == "本期读数"@,
            forall|k: int|
                0 <= k < cols@.len() ==> spec_first_match(
                    dv,
                    spec_prev_pattern(prefix@, k + 1),
                    (#[trigger] cols@[k]).0 as int,
                ) && spec_first_match(dv, spec_curr_pattern(prefix@, k + 1), cols@[k].1 as int),
            stopped ==> !spec_meter_found(dv, prefix@, cols@.len() as int + 1),
        decreases cap - cols@.len(), (if stopped { 0int } else { 1int }),
    {
        let n: usize = cols.len() + 1;
        let digits = nat_digits_u128(n as u128);
        let mut prev_pat = Vec::new();
        append_chars(&mut prev_pat, &prefix_chars);
        append_chars(&mut prev_pat, &digits);
        append_chars(&mut prev_pat, &suffix_prev);
        let mut curr_pat = Vec::new();
        append_chars(&mut curr_pat, &prefix_chars);
        append_chars(&mut curr_pat, &digits);
        append_chars(&mut curr_pat, &suffix_curr);
        proof {
            assert(prev_pat@ =~= spec_prev_pattern(prefix@, n as int));
            assert(curr_pat@ =~= spec_curr_pattern(prefix@, n as int));
        }
        let prev_idx = find_in_headers(headers, &prev_pat);
        let curr_idx = find_in_headers(headers, &curr_pat);
        match (prev_idx, curr_idx) {
            (Some(p), Some(c)) => {
                cols.push((p, c));
            },
            _ => {
                stopped = true;
            },
        }
    }
    if cols.len() == 0 {
        proof {
            assert(!spec_meter_found(dv, prefix@, 1));
        }
        return Err(BillError::NoMeterColumns(String::from_str(prefix)));
    }
    Ok(cols)
}

/// The discovered meter pair list: one pair per meter number, each the
/// first matching headers, maximal up to the discovery cap.
pub open spec fn spec_discovered(dv: Seq<Seq<char>>, prefix: Seq<char>, base: Seq<(usize, usize)>) -> bool {
    &&& base.len() >= 1
    &&& base.len() <= spec_cap_sat(dv)
    &&& forall|k: int|
        0 <= k < base.len() ==> spec_first_match(dv, spec_prev_pattern(prefix, k + 1), (
        #[trigger] base[k]).0 as int) && spec_first_match(
            dv,
            spec_curr_pattern(prefix, k + 1),
            base[k].1 as int,
        )
    &&& base.len() < spec_cap_sat(dv) ==> !spec_meter_found(dv, prefix, base.len() as int + 1)
}

/// The final meter pair list: the discovered list, with the dedicated
/// first-meter pair put in front when discovery did not already yield it.
pub open spec fn spec_final_meters(
    dv: Seq<Seq<char>>,
    prefix: Seq<char>,
    e1p: usize,
    e1c: usize,
    f: Seq<(usize, usize)>,
) -> bool {
    exists|base: Seq<(usize, usize)>|
        {
            &&& #[trigger] spec_discovered(dv, prefix, base)
            &&& if exists|k: int| 0 <= k < base.len() && #[trigger] base[k] == (e1p, e1c) {
                f == base
            } else {
                f == seq![(e1p, e1c)] + base
            }
        }
}

/// Discovers the meter columns and puts the dedicated first-meter pair in
/// front unless discovery already yielded it.  Fails when no pair at all is
/// discovered, or when the list outgrows the per-record meter limit.
pub fn resolve_meter_columns(headers: &Vec<String>, prefix: &str, e1p: usize, e1c: usize) -> (r:
    Result<Vec<(usize, usize)>, BillError>)
    ensures
        match r {
            Ok(f) => {
                &&& spec_final_meters(spec_headers_view(headers@), prefix@, e1p, e1c, f@)
                &&& 1 <= f@.len() <= crate::num::METER_LIMIT
            },
            Err(e) => {
                ||| (e is NoMeterColumns && e->NoMeterColumns_0@ == prefix@
                    && !spec_meter_found(spec_headers_view(headers@), prefix@, 1))
                ||| (e is TooManyMeterColumns && exists|f: Seq<(usize, usize)>|
                    #[trigger] spec_final_meters(spec_headers_view(headers@), prefix@, e1p, e1c, f)
                        && f.len() > crate::num::METER_LIMIT)
            },
        },
{
    let ghost dv = spec_headers_view(headers@);
    let base = match find_electricity_columns(headers, prefix) {
        Ok(b) => b,
        Err(e) => {
            return Err(e);
        },
    };
    let mut found: bool = false;
    let mut i: usize = 0;
    while i < base.len()
        invariant
            i <= base@.len(),
            found <==> exists|k: int| 0 <= k < i && #[trigger] base@[k] == (e1p, e1c),
        decreases base@.len() - i,
    {
        let (p, c) = base[i];
        if p == e1p && c == e1c {
            found = true;
        }
        i = i + 1;
    }
    let f: Vec<(usize, usize)> = if found {
        base
    } else {
        let mut v: Vec<(usize, usize)> = Vec::new();
        v.push((e1p, e1c));
        let mut j: usize = 0;
        while j < base.len()
            invariant
                j <= base@.len(),
                v@ == seq![(e1p, e1c)] + base@.subrange(0, j as int),
            decreases base@.len() - j,
        {
            v.push(base[j]);
            j = j + 1;
        }
        proof {
            assert(v@ =~= seq![(e1p, e1c)] + base@);
        }
        v
    };
    proof {
        assert(spec_discovered(dv, prefix@, base@));
        assert(spec_final_meters(dv, prefix@, e1p, e1c, f@));
    }
    if f.len() > crate::num::METER_LIMIT {
        return Err(BillError::TooManyMeterColumns);
    }
    Ok(f)
}

} // verus!
