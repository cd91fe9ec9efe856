//! Billing library for tabular utility-meter readings.
//!
//! Raw spreadsheet or delimited-text rows are turned into per-merchant
//! billing records and rendered as a word-processing document.  All decimal
//! quantities (meter readings, unit prices, fees) are carried as integer
//! counts of milli-units, so every fee computation is exact integer
//! arithmetic with an explicit rounding rule.

#![verifier::loop_isolation(false)]

pub mod billing;
pub mod clock;
pub mod csv;
pub mod dispatch;
pub mod doc_model;
pub mod docx;
pub mod headers;
pub mod naming;
pub mod notice;
pub mod num;
pub mod parse;
pub mod rmb;
pub mod rows;
pub mod template;
pub mod text;

use vstd::prelude::*;

verus! {

/// Errors that abort a batch: input-structure problems and rendering
/// problems.  Cell-level data errors never surface here; malformed cells
/// are coerced to zero instead.
#[derive(Debug)]
pub enum BillError {
    /// A required header column is missing; holds the expected label.
    ColumnNotFound(String),
    /// No meter column pair was discovered in the header row; holds the
    /// meter label prefix the numbered reading labels were built from.
    NoMeterColumns(String),
    /// No valid data row was left after skipping unnamed rows.
    NoRecords,
    /// The discovered meter column pairs outnumber the per-record limit.
    TooManyMeterColumns,
    /// The input file name has an unsupported extension; holds it.
    UnsupportedFormat(String),
    /// The document writer failed to produce the output archive.
    RenderFailed,
}

impl BillError {
    /// A short human-readable description, for callers that print errors.
    pub fn message(&self) -> (r: String)
        ensures
            r@.len() > 0,
            self is ColumnNotFound ==> r@ == "missing column: "@ + self->ColumnNotFound_0@,
            self is NoMeterColumns ==> r@
                == "no meter column pairs found in the header row: expected columns containing '"@
                + self->NoMeterColumns_0@ + "1上期读数' and '"@ + self->NoMeterColumns_0@
                + "1本期读数'"@,
            self is NoRecords ==> r@ == "no valid data rows"@,
            self is TooManyMeterColumns ==> r@
                == "more meter column pairs than a record can hold"@,
            self is UnsupportedFormat ==> r@ == "unsupported file format: "@
                + self->UnsupportedFormat_0@,
            self is RenderFailed ==> r@ == "failed to build the output document"@,
    {
        proof {
            reveal_strlit("missing column: ");
            reveal_strlit(
                "no meter column pairs found in the header row: expected columns containing '",
            );
            reveal_strlit("1上期读数' and '");
            reveal_strlit("1本期读数'");
            reveal_strlit("no valid data rows");
            reveal_strlit("more meter column pairs than a record can hold");
            reveal_strlit("unsupported file format: ");
            reveal_strlit("failed to build the output document");
        }
        match self {
            BillError::ColumnNotFound(label) => {
                let mut s = String::from_str("missing column: ");
                s.append(label.as_str());
                s
            },
            BillError::NoMeterColumns(prefix) => {
                let mut s = String::from_str(
                    "no meter column pairs found in the header row: expected columns containing '",
                );
                s.append(prefix.as_str());
                s.append("1上期读数' and '");
                s.append(prefix.as_str());
                s.append("1本期读数'");
                s
            },
            BillError::NoRecords => String::from_str("no valid data rows"),
            BillError::TooManyMeterColumns => String::from_str(
                "more meter column pairs than a record can hold",
            ),
            BillError::UnsupportedFormat(ext) => {
                let mut s = String::from_str("unsupported file format: ");
                s.append(ext.as_str());
                s
            },
            BillError::RenderFailed => String::from_str("failed to build the output document"),
        }
    }
}

} // verus!
