//! A declarative document model: paragraphs, styled runs, tables with
//! vertical merges, and page breaks.  The assemblers build values of this
//! model under exact contracts; a separate renderer turns the model into
//! the word-processing file format.

use vstd::prelude::*;

verus! {

/// Paragraph alignment; `Default` leaves the writer's default in place.
#[derive(Clone, Copy, PartialEq, Eq, Structural)]
pub enum Align {
    /// No explicit alignment.
    Default,
    /// Explicit left alignment.
    Left,
    /// Centered.
    Center,
    /// Right-aligned.
    Right,
}

/// Vertical merge state of a table cell.
#[derive(Clone, Copy, PartialEq, Eq, Structural)]
pub enum VMerge {
    /// The first cell of a merged run.
    Restart,
    /// A continuation cell of a merged run.
    Continue,
}

/// One styled run of a paragraph.
pub enum RunSpec {
    /// A text run with optional size, bold flag and color.
    Text { text: String, size: Option<usize>, bold: bool, color: Option<String> },
    /// A page break.
    PageBreak,
}

/// The model of one run.
#[verifier::ext_equal]
pub ghost enum RunM {
    /// A text run.
    Text { text: Seq<char>, size: Option<int>, bold: bool, color: Option<Seq<char>> },
    /// A page break.
    PageBreak,
}

impl View for RunSpec {
    type V = RunM;

    open spec fn view(&self) -> RunM {
        match self {
            RunSpec::Text { text, size, bold, color } => RunM::Text {
                text: text@,
                size: match size {
                    Some(s) => Some(*s as int),
                    None => None,
                },
                bold: *bold,
                color: match color {
                    Some(c) => Some(c@),
                    None => None,
                },
            },
            RunSpec::PageBreak => RunM::PageBreak,
        }
    }
}

/// One paragraph: at most one run, and an alignment.
pub struct ParaSpec {
    /// The paragraph's run, if any.
    pub run: Option<RunSpec>,
    /// The paragraph's alignment.
    pub align: Align,
}

/// The model of one paragraph.
#[verifier::ext_equal]
pub ghost struct ParaM {
    /// The run, if any.
    pub run: Option<RunM>,
    /// The alignment.
    pub align: Align,
}

impl View for ParaSpec {
    type V = ParaM;

    open spec fn view(&self) -> ParaM {
        ParaM {
            run: match &self.run {
                Some(r) => Some(r@),
                None => None,
            },
            align: self.align,
        }
    }
}

/// One table cell: at most one paragraph, with merge and layout options.
pub struct CellSpec {
    /// The cell's paragraph, if any.
    pub para: Option<ParaSpec>,
    /// Vertical merge state, if the cell takes part in one.
    pub vmerge: Option<VMerge>,
    /// How many grid columns the cell spans, when more than one.
    pub grid_span: Option<usize>,
    /// Fixed cell width, in twentieths of a point.
    pub width: Option<usize>,
}

/// The model of one cell.
#[verifier::ext_equal]
pub ghost struct CellM {
    /// The paragraph, if any.
    pub para: Option<ParaM>,
    /// Vertical merge state.
    pub vmerge: Option<VMerge>,
    /// Grid span.
    pub grid_span: Option<int>,
    /// Fixed width.
    pub width: Option<int>,
}

impl View for CellSpec {
    type V = CellM;

    open spec fn view(&self) -> CellM {
        CellM {
            para: match &self.para {
                Some(p) => Some(p@),
                None => None,
            },
            vmerge: self.vmerge,
            grid_span: match self.grid_span {
                Some(g) => Some(g as int),
                None => None,
            },
            width: match self.width {
                Some(w) => Some(w as int),
                None => None,
            },
        }
    }
}

/// One table row.
pub struct RowSpec {
    /// The row's cells, left to right.
    pub cells: Vec<CellSpec>,
    /// Minimum row height, when fixed.
    pub height: Option<u16>,
}

/// The model of one row.
#[verifier::ext_equal]
pub ghost struct RowM {
    /// The cells.
    pub cells: Seq<CellM>,
    /// Minimum height.
    pub height: Option<int>,
}

impl View for RowSpec {
    type V = RowM;

    open spec fn view(&self) -> RowM {
        RowM {
            cells: Seq::new(self.cells@.len(), |i: int| self.cells@[i]@),
            height: match self.height {
                Some(h) => Some(h as int),
                None => None,
            },
        }
    }
}

/// One table.
pub struct TableSpec {
    /// The rows, top to bottom.
    pub rows: Vec<RowSpec>,
    /// Fixed table width, when set.
    pub width: Option<usize>,
}

/// The model of one table.
#[verifier::ext_equal]
pub ghost struct TableM {
    /// The rows.
    pub rows: Seq<RowM>,
    /// Fixed width.
    pub width: Option<int>,
}

impl View for TableSpec {
    type V = TableM;

    open spec fn view(&self) -> TableM {
        TableM {
            rows: Seq::new(self.rows@.len(), |i: int| self.rows@[i]@),
            width: match self.width {
                Some(w) => Some(w as int),
                None => None,
            },
        }
    }
}

/// One document block.
pub enum Block {
    /// A paragraph.
    Para(ParaSpec),
    /// A table.
    Table(TableSpec),
}

/// The model of one block.
#[verifier::ext_equal]
pub ghost enum BlockM {
    /// A paragraph.
    Para(ParaM),
    /// A table.
    Table(TableM),
}

impl View for Block {
    type V = BlockM;

    open spec fn view(&self) -> BlockM {
        match self {
            Block::Para(p) => BlockM::Para(p@),
            Block::Table(t) => BlockM::Table(t@),
        }
    }
}

/// The model of a block list.
pub open spec fn blocks_view(v: Seq<Block>) -> Seq<BlockM> {
    Seq::new(v.len(), |i: int| v[i]@)
}

/// The model of a text paragraph.
pub open spec fn spec_text_para(
    text: Seq<char>,
    size: Option<int>,
    bold: bool,
    color: Option<Seq<char>>,
    align: Align,
) -> BlockM {
    BlockM::Para(ParaM { run: Some(RunM::Text { text, size, bold, color }), align })
}

/// The model of an empty paragraph.
pub open spec fn spec_empty_para() -> BlockM {
    BlockM::Para(ParaM { run: None, align: Align::Default })
}

/// The model of a page-break paragraph.
pub open spec fn spec_page_break() -> BlockM {
    BlockM::Para(ParaM { run: Some(RunM::PageBreak), align: Align::Default })
}

/// The model of a plain text cell with optional size, bold flag and
/// alignment.
pub open spec fn spec_text_cell(
    text: Seq<char>,
    size: Option<int>,
    bold: bool,
    align: Align,
) -> CellM {
    CellM {
        para: Some(
            ParaM { run: Some(RunM::Text { text, size, bold, color: None }), align },
        ),
        vmerge: None,
        grid_span: None,
        width: None,
    }
}

/// Appends a text paragraph to a block list.
pub fn push_text_para(
    doc: &mut Vec<Block>,
    text: Vec<char>,
    size: Option<usize>,
    bold: bool,
    color: Option<String>,
    align: Align,
)
    ensures
        blocks_view(final(doc)@) == blocks_view(old(doc)@).push(
            spec_text_para(
                text@,
                match size {
                    Some(s) => Some(s as int),
                    None => None,
                },
                bold,
                match color {
                    Some(c) => Some(c@),
                    None => None,
                },
                align,
            ),
        ),
{
    let ghost expected = spec_text_para(
        text@,
        match size {
            Some(s) => Some(s as int),
            None => None,
        },
        bold,
        match &color {
            Some(c) => Some(c@),
            None => None,
        },
        align,
    );
    let t = crate::text::chars_to_string(&text);
    doc.push(
        Block::Para(
            ParaSpec { run: Some(RunSpec::Text { text: t, size, bold, color }), align },
        ),
    );
    proof {
        assert(blocks_view(doc@) =~~= blocks_view(old(doc)@).push(expected));
    }
}

/// Appends an empty paragraph to a block list.
pub fn push_empty_para(doc: &mut Vec<Block>)
    ensures
        blocks_view(final(doc)@) == blocks_view(old(doc)@).push(spec_empty_para()),
{
    doc.push(Block::Para(ParaSpec { run: None, align: Align::Default }));
    proof {
        assert(blocks_view(doc@) =~~= blocks_view(old(doc)@).push(spec_empty_para()));
    }
}

/// Appends a page-break paragraph to a block list.
pub fn push_page_break(doc: &mut Vec<Block>)
    ensures
        blocks_view(final(doc)@) == blocks_view(old(doc)@).push(spec_page_break()),
{
    doc.push(Block::Para(ParaSpec { run: Some(RunSpec::PageBreak), align: Align::Default }));
    proof {
        assert(blocks_view(doc@) =~~= blocks_view(old(doc)@).push(spec_page_break()));
    }
}

/// Builds a plain text cell.
pub fn make_text_cell(text: Vec<char>, size: Option<usize>, bold: bool, align: Align) -> (r:
    CellSpec)
    ensures
        r@ == spec_text_cell(
            text@,
            match size {
                Some(s) => Some(s as int),
                None => None,
            },
            bold,
            align,
        ),
{
    let t = crate::text::chars_to_string(&text);
    let r = CellSpec {
        para: Some(
            ParaSpec { run: Some(RunSpec::Text { text: t, size, bold, color: None }), align },
        ),
        vmerge: None,
        grid_span: None,
        width: None,
    };
    proof {
        assert(r@ =~~= spec_text_cell(
            text@,
            match size {
                Some(s) => Some(s as int),
                None => None,
            },
            bold,
            align,
        ));
    }
    r
}

/// Counts the page-break paragraphs in a block list model.
pub open spec fn spec_count_breaks(s: Seq<BlockM>) -> int
    decreases s.len(),
{
    if s.len() == 0 {
        0
    } else {
        spec_count_breaks(s.drop_last()) + (if s.last() == spec_page_break() {
            1int
        } else {
            0int
        })
    }
}

/// Page-break counting distributes over concatenation.
pub proof fn lemma_count_breaks_concat(a: Seq<BlockM>, b: Seq<BlockM>)
    ensures
        spec_count_breaks(a + b) == spec_count_breaks(a) + spec_count_breaks(b),
    decreases b.len(),
{
    if b.len() == 0 {
        assert(a + b =~= a);
    } else {
        lemma_count_breaks_concat(a, b.drop_last());
        assert((a + b).drop_last() =~= a + b.drop_last());
    }
}

/// Counts the page-break paragraphs in a block list.
pub fn count_page_breaks(doc: &Vec<Block>) -> (r: usize)
    ensures
        r == spec_count_breaks(blocks_view(doc@)),
{
    let mut n: usize = 0;
    let mut i: usize = 0;
    while i < doc.len()
        invariant
            i <= doc@.len(),
            n <= i,
            n == spec_count_breaks(blocks_view(doc@).subrange(0, i as int)),
        decreases doc@.len() - i,
    {
        proof {
            assert(blocks_view(doc@).subrange(0, i as int + 1).drop_last() =~= blocks_view(
                doc@,
            ).subrange(0, i as int));
            assert(blocks_view(doc@).subrange(0, i as int + 1).last() == doc@[i as int]@);
        }
        let is_break = match &doc[i] {
            Block::Para(p) => match &p.run {
                Some(r) => match r {
                    RunSpec::PageBreak => {
                        match p.align {
                            Align::Default => true,
                            _ => false,
                        }
                    },
                    _ => false,
                },
                None => false,
            },
            _ => false,
        };
        if is_break {
            proof {
                assert(doc@[i as int]@ =~~= spec_page_break());
            }
            n = n + 1;
        } else {
            proof {
                assert(doc@[i as int]@ != spec_page_break());
            }
        }
        i = i + 1;
    }
    proof {
        assert(blocks_view(doc@).subrange(0, doc@.len() as int) =~= blocks_view(doc@));
    }
    n
}

} // verus!
