//! Rendering the document model as a word-processing file.
//!
//! Every call into the document-writing crate goes through a thin trusted
//! wrapper; the writer's values are opaque here, so the wrappers promise
//! nothing of them.  Everything stated about a document is stated about the
//! model it was rendered from.

use vstd::prelude::*;
use crate::doc_model::{Align, VMerge, RunSpec, ParaSpec, CellSpec, RowSpec, TableSpec, Block};
use crate::BillError;

verus! {

#[verifier::external_type_specification]
#[verifier::external_body]
pub struct ExDocx(docx_rs::Docx);

#[verifier::external_type_specification]
#[verifier::external_body]
pub struct ExXmlDocx(docx_rs::XMLDocx);

#[verifier::external_type_specification]
#[verifier::external_body]
pub struct ExParagraph(docx_rs::Paragraph);

#[verifier::external_type_specification]
#[verifier::external_body]
pub struct ExRun(docx_rs::Run);

#[verifier::external_type_specification]
#[verifier::external_body]
pub struct ExTable(docx_rs::Table);

#[verifier::external_type_specification]
#[verifier::external_body]
pub struct ExTableRow(docx_rs::TableRow);

#[verifier::external_type_specification]
#[verifier::external_body]
pub struct ExTableCell(docx_rs::TableCell);

/// Relies on `Docx::new`: an empty document.
#[verifier::external_body]
fn docx_new() -> docx_rs::Docx {
    docx_rs::Docx::new()
}

/// Relies on `Docx::add_paragraph`: appends the paragraph.
#[verifier::external_body]
fn docx_add_paragraph(d: docx_rs::Docx, p: docx_rs::Paragraph) -> docx_rs::Docx {
    d.add_paragraph(p)
}

/// Relies on `Docx::add_table`: appends the table.
#[verifier::external_body]
fn docx_add_table(d: docx_rs::Docx, t: docx_rs::Table) -> docx_rs::Docx {
    d.add_table(t)
}

/// Relies on `Docx::build`: renders the package parts.
#[verifier::external_body]
fn docx_build(d: docx_rs::Docx) -> docx_rs::XMLDocx {
    d.build()
}

/// Relies on `XMLDocx::pack`: writes the archive into a memory buffer;
/// nothing if the writer reports an error.
#[verifier::external_body]
fn xml_pack(x: docx_rs::XMLDocx) -> Option<Vec<u8>> {
    let mut buf: Vec<u8> = Vec::new();
    match x.pack(&mut std::io::Cursor::new(&mut buf)) {
        Ok(()) => Some(buf),
        Err(_) => None,
    }
}

/// Relies on `Paragraph::new`: an empty paragraph.
#[verifier::external_body]
fn paragraph_new() -> docx_rs::Paragraph {
    docx_rs::Paragraph::new()
}

/// Relies on `Paragraph::add_run`: appends the run.
#[verifier::external_body]
fn paragraph_add_run(p: docx_rs::Paragraph, r: docx_rs::Run) -> docx_rs::Paragraph {
    p.add_run(r)
}

/// Relies on `Paragraph::align` with the left alignment.
#[verifier::external_body]
fn paragraph_align_left(p: docx_rs::Paragraph) -> docx_rs::Paragraph {
    p.align(docx_rs::AlignmentType::Left)
}

/// Relies on `Paragraph::align` with the centered alignment.
#[verifier::external_body]
fn paragraph_align_center(p: docx_rs::Paragraph) -> docx_rs::Paragraph {
    p.align(docx_rs::AlignmentType::Center)
}

/// Relies on `Paragraph::align` with the right alignment.
#[verifier::external_body]
fn paragraph_align_right(p: docx_rs::Paragraph) -> docx_rs::Paragraph {
    p.align(docx_rs::AlignmentType::Right)
}

/// Relies on `Run::new`: an empty run.
#[verifier::external_body]
fn run_new() -> docx_rs::Run {
    docx_rs::Run::new()
}

/// Relies on `Run::add_text`: appends the text.
#[verifier::external_body]
fn run_add_text(r: docx_rs::Run, t: &str) -> docx_rs::Run {
    r.add_text(t)
}

/// Relies on `Run::bold`.
#[verifier::external_body]
fn run_bold(r: docx_rs::Run) -> docx_rs::Run {
    r.bold()
}

/// Relies on `Run::size`.
#[verifier::external_body]
fn run_size(r: docx_rs::Run, s: usize) -> docx_rs::Run {
    r.size(s)
}

/// Relies on `Run::color`.
#[verifier::external_body]
fn run_color(r: docx_rs::Run, c: &str) -> docx_rs::Run {
    r.color(c)
}

/// Relies on `Run::add_break` with a page break.
#[verifier::external_body]
fn run_page_break(r: docx_rs::Run) -> docx_rs::Run {
    r.add_break(docx_rs::BreakType::Page)
}

/// Relies on `Table::new` over the given rows.
#[verifier::external_body]
fn table_new(rows: Vec<docx_rs::TableRow>) -> docx_rs::Table {
    docx_rs::Table::new(rows)
}

/// Relies on `Table::width` with a fixed width in twentieths of a point.
#[verifier::external_body]
fn table_width_dxa(t: docx_rs::Table, w: usize) -> docx_rs::Table {
    t.width(w, docx_rs::WidthType::Dxa)
}

/// Relies on `TableRow::new` over the given cells.
#[verifier::external_body]
fn row_new(cells: Vec<docx_rs::TableCell>) -> docx_rs::TableRow {
    docx_rs::TableRow::new(cells)
}

/// Relies on `TableRow::row_height`; the height is converted to the
/// writer's floating-point representation, exact for this range.
#[verifier::external_body]
fn row_height(r: docx_rs::TableRow, h: u16) -> docx_rs::TableRow {
    r.row_height(h.into())
}

/// Relies on `TableRow::height_rule` with the at-least rule.
#[verifier::external_body]
fn row_height_rule_at_least(r: docx_rs::TableRow) -> docx_rs::TableRow {
    r.height_rule(docx_rs::HeightRule::AtLeast)
}

/// Relies on `TableCell::new`: an empty cell.
#[verifier::external_body]
fn cell_new() -> docx_rs::TableCell {
    docx_rs::TableCell::new()
}

/// Relies on `TableCell::add_paragraph`.
#[verifier::external_body]
fn cell_add_paragraph(c: docx_rs::TableCell, p: docx_rs::Paragraph) -> docx_rs::TableCell {
    c.add_paragraph(p)
}

/// Relies on `TableCell::vertical_merge` with the restart state.
#[verifier::external_body]
fn cell_vmerge_restart(c: docx_rs::TableCell) -> docx_rs::TableCell {
    c.vertical_merge(docx_rs::VMergeType::Restart)
}

/// Relies on `TableCell::vertical_merge` with the continue state.
#[verifier::external_body]
fn cell_vmerge_continue(c: docx_rs::TableCell) -> docx_rs::TableCell {
    c.vertical_merge(docx_rs::VMergeType::Continue)
}

/// Relies on `TableCell::grid_span`.
#[verifier::external_body]
fn cell_grid_span(c: docx_rs::TableCell, n: usize) -> docx_rs::TableCell {
    c.grid_span(n)
}

/// Relies on `TableCell::width` with a fixed width in twentieths of a
/// point.
#[verifier::external_body]
fn cell_width_dxa(c: docx_rs::TableCell, w: usize) -> docx_rs::TableCell {
    c.width(w, docx_rs::WidthType::Dxa)
}

/// Renders one run.
fn render_run(r: &RunSpec) -> docx_rs::Run {
    match r {
        RunSpec::Text { text, size, bold, color } => {
            let mut run = run_new();
            run = run_add_text(run, text.as_str());
            match size {
                Some(s) => {
                    run = run_size(run, *s);
                },
                None => {},
            }
            if *bold {
                run = run_bold(run);
            }
            match color {
                Some(c) => {
                    run = run_color(run, c.as_str());
                },
                None => {},
            }
            run
        },
        RunSpec::PageBreak => run_page_break(run_new()),
    }
}

/// Renders one paragraph.
fn render_para(p: &ParaSpec) -> docx_rs::Paragraph {
    let mut para = paragraph_new();
    match &p.run {
        Some(r) => {
            para = paragraph_add_run(para, render_run(r));
        },
        None => {},
    }
    match p.align {
        Align::Default => {},
        Align::Left => {
            para = paragraph_align_left(para);
        },
        Align::Center => {
            para = paragraph_align_center(para);
        },
        Align::Right => {
            para = paragraph_align_right(para);
        },
    }
    para
}

/// Renders one cell.
fn render_cell(c: &CellSpec) -> docx_rs::TableCell {
    let mut cell = cell_new();
    match &c.para {
        Some(p) => {
            cell = cell_add_paragraph(cell, render_para(p));
        },
        None => {},
    }
    match c.vmerge {
        Some(VMerge::Restart) => {
            cell = cell_vmerge_restart(cell);
        },
        Some(VMerge::Continue) => {
            cell = cell_vmerge_continue(cell);
        },
        None => {},
    }
    match c.grid_span {
        Some(n) => {
            cell = cell_grid_span(cell, n);
        },
        None => {},
    }
    match c.width {
        Some(w) => {
            cell = cell_width_dxa(cell, w);
        },
        None => {},
    }
    cell
}

/// Renders one row.
fn render_row(r: &RowSpec) -> docx_rs::TableRow {
    let mut cells: Vec<docx_rs::TableCell> = Vec::new();
    let mut i: usize = 0;
    while i < r.cells.len()
        decreases r.cells@.len() - i,
    {
        cells.push(render_cell(&r.cells[i]));
        i = i + 1;
    }
    let mut row = row_new(cells);
    match r.height {
        Some(h) => {
            row = row_height(row, h);
            row = row_height_rule_at_least(row);
        },
        None => {},
    }
    row
}

/// Renders one table.
fn render_table(t: &TableSpec) -> docx_rs::Table {
    let mut rows: Vec<docx_rs::TableRow> = Vec::new();
    let mut i: usize = 0;
    while i < t.rows.len()
        decreases t.rows@.len() - i,
    {
        rows.push(render_row(&t.rows[i]));
        i = i + 1;
    }
    let mut table = table_new(rows);
    match t.width {
        Some(w) => {
            table = table_width_dxa(table, w);
        },
        None => {},
    }
    table
}

/// Renders a whole block list as document bytes.  Fails only when the
/// archive writer reports an error.
pub fn render_blocks(blocks: &Vec<Block>) -> (r: Result<Vec<u8>, BillError>)
    ensures
        r is Err ==> r->Err_0 is RenderFailed,
{
    let mut doc = docx_new();
    let mut i: usize = 0;
    while i < blocks.len()
        decreases blocks@.len() - i,
    {
        match &blocks[i] {
            Block::Para(p) => {
                doc = docx_add_paragraph(doc, render_para(p));
            },
            Block::Table(t) => {
                doc = docx_add_table(doc, render_table(t));
            },
        }
        i = i + 1;
    }
    let xml = docx_build(doc);
    match xml_pack(xml) {
        Some(bytes) => Ok(bytes),
        None => Err(BillError::RenderFailed),
    }
}

} // verus!
