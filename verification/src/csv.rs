//! Delimited-text input: the first line is the header row, every later
//! line one data row, fields separated by commas.  Blank lines and lines
//! with fewer than five fields are skipped.

use vstd::prelude::*;
use crate::text::{spec_split, split_chars, spec_trim, trim_chars, str_chars, chars_to_string};
use crate::rows::{CellValue, spec_table_outcome, build_bills_from_table};
use crate::headers::{spec_headers_view, HeadersMap};
use crate::billing::MerchantBill;
use crate::BillError;

verus! {

/// A line with one trailing carriage return removed.
pub open spec fn spec_strip_cr(l: Seq<char>) -> Seq<char> {
    if l.len() > 0 && l.last() == '\r' {
        l.drop_last()
    } else {
        l
    }
}

/// The lines of a text: split on newlines, with no final empty line when
/// the text ends in a newline, and one trailing carriage return removed
/// from each line.
pub open spec fn spec_lines(s: Seq<char>) -> Seq<Seq<char>> {
    let raw = spec_split(s, '\n');
    let cut = if s.len() == 0 {
        Seq::<Seq<char>>::empty()
    } else if s.last() == '\n' {
        raw.drop_last()
    } else {
        raw
    };
    Seq::new(cut.len(), |i: int| spec_strip_cr(cut[i]))
}

/// Splits a text into its lines.
pub fn lines_of(text: &Vec<char>) -> (r: Vec<Vec<char>>)
    ensures
        r@.len() == spec_lines(text@).len(),
        forall|i: int| 0 <= i < r@.len() ==> #[trigger] r@[i]@ == spec_lines(text@)[i],
{
    let mut parts = split_chars(text, '\n');
    if text.len() == 0 {
        // an empty text splits into one empty field but has no lines
        let _ = parts.pop();
    } else if text[text.len() - 1] == '\n' {
        let _ = parts.pop();
    }
    let mut out: Vec<Vec<char>> = Vec::new();
    let mut i: usize = 0;
    while i < parts.len()
        invariant
            i <= parts@.len(),
            out@.len() == i,
            forall|j: int| 0 <= j < i ==> #[trigger] out@[j]@ == spec_strip_cr(parts@[j]@),
        decreases parts@.len() - i,
    {
        let p = &parts[i];
        if p.len() > 0 && p[p.len() - 1] == '\r' {
            let mut q: Vec<char> = Vec::new();
            let mut m: usize = 0;
            while m < p.len() - 1
                invariant
                    p@.len() > 0,
                    m <= p@.len() - 1,
                    q@ == p@.subrange(0, m as int),
                decreases p@.len() - m,
            {
                q.push(p[m]);
                m = m + 1;
            }
            proof {
                assert(q@ =~= p@.drop_last());
            }
            out.push(q);
        } else {
            let mut q: Vec<char> = Vec::new();
            crate::num::append_chars(&mut q, p);
            out.push(q);
        }
        i = i + 1;
    }
    out
}

/// The comma-separated fields of one line.
pub open spec fn spec_fields(l: Seq<char>) -> Seq<Seq<char>> {
    spec_split(l, ',')
}

/// Whether a data line enters the table: not blank, and at least five
/// fields.
pub open spec fn spec_line_kept(l: Seq<char>) -> bool {
    spec_trim(l).len() > 0 && spec_fields(l).len() >= 5
}

/// The header strings of a delimited text: the first line's fields, each
/// trimmed.
pub open spec fn spec_csv_headers_ok(text: Seq<char>, headers: Seq<String>) -> bool {
    &&& spec_lines(text).len() >= 1
    &&& headers.len() == spec_fields(spec_lines(text)[0]).len()
    &&& forall|j: int|
        0 <= j < headers.len() ==> #[trigger] headers[j]@ == spec_trim(
            spec_fields(spec_lines(text)[0])[j],
        )
}

/// The indices of the kept data lines (line one onward), in order.
pub open spec fn spec_kept_lines(lines: Seq<Seq<char>>) -> Seq<int>
    decreases lines.len(),
{
    if lines.len() <= 1 {
        Seq::<int>::empty()
    } else {
        let rest = spec_kept_lines(lines.drop_last());
        if spec_line_kept(lines.last()) {
            rest.push(lines.len() - 1)
        } else {
            rest
        }
    }
}

/// The kept line indices point past the header line and into the text.
pub proof fn lemma_kept_lines_props(lines: Seq<Seq<char>>)
    ensures
        forall|j: int|
            0 <= j < spec_kept_lines(lines).len() ==> 1 <= #[trigger] spec_kept_lines(lines)[j]
                < lines.len(),
    decreases lines.len(),
{
    if lines.len() > 1 {
        lemma_kept_lines_props(lines.drop_last());
        assert forall|j: int|
            0 <= j < spec_kept_lines(lines).len() implies 1 <= #[trigger] spec_kept_lines(lines)[j]
            < lines.len() by {
            if j < spec_kept_lines(lines.drop_last()).len() {
                assert(spec_kept_lines(lines)[j] == spec_kept_lines(lines.drop_last())[j]);
            }
        }
    }
}

/// The data rows of a delimited text: one row per kept line, each cell the
/// raw text of one field.
pub open spec fn spec_csv_rows_ok(text: Seq<char>, rows: Seq<Vec<CellValue>>) -> bool {
    let kept = spec_kept_lines(spec_lines(text));
    &&& rows.len() == kept.len()
    &&& forall|j: int|
        0 <= j < rows.len() ==> {
            &&& (#[trigger] rows[j])@.len() == spec_fields(spec_lines(text)[kept[j]]).len()
            &&& forall|m: int|
                0 <= m < rows[j]@.len() ==> ((#[trigger] rows[j]@[m]) matches CellValue::Text(s)
                    && s@ == spec_fields(spec_lines(text)[kept[j]])[m])
        }
}

/// Splits a delimited text into its header strings and data rows.  Fails
/// exactly when the text has no lines at all.
pub fn csv_table(text: &str) -> (r: Result<(Vec<String>, Vec<Vec<CellValue>>), BillError>)
    ensures
        match r {
            Ok(t) => spec_csv_headers_ok(text@, t.0@) && spec_csv_rows_ok(text@, t.1@),
            Err(e) => e is NoRecords && spec_lines(text@).len() == 0,
        },
{
    let chars = str_chars(text);
    let lines = lines_of(&chars);
    if lines.len() == 0 {
        return Err(BillError::NoRecords);
    }
    let fields = split_chars(&lines[0], ',');
    let mut headers: Vec<String> = Vec::new();
    let mut j: usize = 0;
    while j < fields.len()
        invariant
            j <= fields@.len(),
            headers@.len() == j,
            forall|m: int| 0 <= m < fields@.len() ==> #[trigger] fields@[m]@ == spec_fields(
                spec_lines(text@)[0],
            )[m],
            fields@.len() == spec_fields(spec_lines(text@)[0]).len(),
            forall|m: int|
                0 <= m < j ==> #[trigger] headers@[m]@ == spec_trim(
                    spec_fields(spec_lines(text@)[0])[m],
                ),
        decreases fields@.len() - j,
    {
        let t = trim_chars(&fields[j]);
        headers.push(chars_to_string(&t));
        j = j + 1;
    }
    let mut rows: Vec<Vec<CellValue>> = Vec::new();
    proof {
        assert(spec_kept_lines(lines@.map_values(|l: Vec<char>| l@).subrange(0, 1))
            =~= Seq::<int>::empty());
    }
    let ghost lv = spec_lines(text@);
    let mut i: usize = 1;
    while i < lines.len()
        invariant
            1 <= i <= lines@.len(),
            lines@.len() == lv.len(),
            lv == spec_lines(text@),
            forall|m: int| 0 <= m < lines@.len() ==> #[trigger] lines@[m]@ == lv[m],
            rows@.len() == spec_kept_lines(lv.subrange(0, i as int)).len(),
            forall|j2: int|
                0 <= j2 < rows@.len() ==> {
                    &&& (#[trigger] rows@[j2])@.len() == spec_fields(
                        lv[spec_kept_lines(lv.subrange(0, i as int))[j2]],
                    ).len()
                    &&& forall|m: int|
                        0 <= m < rows@[j2]@.len() ==> ((#[trigger] rows@[j2]@[m]) matches
                            CellValue::Text(s) && s@ == spec_fields(
                            lv[spec_kept_lines(lv.subrange(0, i as int))[j2]],
                        )[m])
                },
        decreases lines@.len() - i,
    {
        let ghost pre = lv.subrange(0, i as int);
        let ghost post = lv.subrange(0, i as int + 1);
        proof {
            assert(post.drop_last() =~= pre);
            assert(post.last() == lv[i as int]);
            lemma_kept_lines_props(pre);
            lemma_kept_lines_props(post);
        }
        let line = &lines[i];
        let t = trim_chars(line);
        if t.len() > 0 {
            let parts = split_chars(line, ',');
            if parts.len() >= 5 {
                let mut row: Vec<CellValue> = Vec::new();
                let mut m: usize = 0;
                while m < parts.len()
                    invariant
                        m <= parts@.len(),
                        row@.len() == m,
                        forall|q: int| 0 <= q < parts@.len() ==> #[trigger] parts@[q]@
                            == spec_fields(lines@[i as int]@)[q],
                        parts@.len() == spec_fields(lines@[i as int]@).len(),
                        forall|q: int|
                            0 <= q < m ==> ((#[trigger] row@[q]) matches CellValue::Text(s) && s@
                                == spec_fields(lines@[i as int]@)[q]),
                    decreases parts@.len() - m,
                {
                    row.push(CellValue::Text(chars_to_string(&parts[m])));
                    m = m + 1;
                }
                rows.push(row);
            }
        }
        proof {
            lemma_kept_lines_props(post);
            assert forall|j2: int|
                0 <= j2 < spec_kept_lines(post).len() implies spec_kept_lines(post)[j2]
                < post.len() by {}
        }
        i = i + 1;
    }
    proof {
        assert(lv.subrange(0, lv.len() as int) =~= lv);
    }
    Ok((headers, rows))
}

/// Builds the batch for one delimited text: header line, then one record
/// per kept data line.
pub fn bills_from_csv_text(text: &str, headers_map: &HeadersMap) -> (r: Result<
    Vec<MerchantBill>,
    BillError,
>)
    ensures
        match r {
            Ok(_) => exists|headers: Seq<String>, rows: Seq<Vec<CellValue>>|
                {
                    &&& #[trigger] spec_csv_headers_ok(text@, headers)
                    &&& #[trigger] spec_csv_rows_ok(text@, rows)
                    &&& spec_table_outcome(
                        spec_headers_view(headers),
                        headers_map.electricity_prefix@,
                        rows,
                        r,
                    )
                },
            Err(e) => (e is NoRecords && spec_lines(text@).len() == 0) || exists|
                headers: Seq<String>,
                rows: Seq<Vec<CellValue>>,
            |
                {
                    &&& #[trigger] spec_csv_headers_ok(text@, headers)
                    &&& #[trigger] spec_csv_rows_ok(text@, rows)
                    &&& spec_table_outcome(
                        spec_headers_view(headers),
                        headers_map.electricity_prefix@,
                        rows,
                        r,
                    )
                },
        },
{
    let (headers, rows) = match csv_table(text) {
        Ok(t) => t,
        Err(e) => {
            return Err(e);
        },
    };
    let out = build_bills_from_table(&headers, &rows, headers_map);
    proof {
        assert(spec_csv_headers_ok(text@, headers@));
        assert(spec_csv_rows_ok(text@, rows@));
    }
    out
}

} // verus!
