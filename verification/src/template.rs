//! The declarative template layout: a configured list of section
//! descriptors — title, text, sub-section with items, timestamp, or the
//! fixed summary table — rendered once per record with placeholder
//! substitution, records separated by page breaks.

use vstd::prelude::*;
use crate::billing::{MerchantBill, sum_water_amount, sum_electricity_amount, sum_total_fee,
    lemma_batch_sums_bound, lemma_wf_field_bounds, FIELD_BOUND};
use crate::doc_model::{Align, RunSpec, ParaSpec, CellSpec, RowSpec, TableSpec, Block, RunM, ParaM,
    CellM, RowM, TableM, BlockM, blocks_view, spec_text_para, spec_page_break, push_text_para,
    push_page_break};
use crate::num::{spec_int_digits, int_digits_i128, spec_nat_digits, nat_digits_u128,
    spec_fmt_plain_milli, fmt_plain_milli, spec_fmt_fix2_milli, fmt_fix2_milli, append_chars};
use crate::clock::{now_parts, spec_timestamp_label, timestamp_label};
use crate::text::{spec_replace, replace_chars, str_chars, chars_to_string, chars_equal};
use crate::BillError;

verus! {

/// One template section descriptor.
pub struct Section {
    /// A free-form section name, kept for configuration readability.
    pub name: String,
    /// The section kind: a document heading, a paragraph, a sub-heading
    /// with item lines, a timestamp, or the summary table.
    pub kind: String,
    /// The text or format of the section, for kinds that carry one.
    pub content: Option<String>,
    /// The sub-heading of an itemized section.
    pub title: Option<String>,
    /// The item lines of an itemized section.
    pub items: Option<Vec<String>>,
    /// A per-section font size overriding the configured one.
    pub font_size: Option<usize>,
    /// Whether the text is bold.
    pub bold: Option<bool>,
    /// A text color.
    pub color: Option<String>,
    /// An alignment word: centered, right, or anything else for left.
    pub alignment: Option<String>,
}

/// The ordered section list rendered once per record.
pub struct MerchantTemplate {
    /// The sections, in order.
    pub sections: Vec<Section>,
}

/// The ordered section list of the trailing summary.
pub struct SummaryTemplate {
    /// The sections, in order.
    pub sections: Vec<Section>,
}

/// The whole template configuration.
pub struct TemplateConfig {
    /// The document-level heading.
    pub document_title: String,
    /// Font size of headings, in half the stored unit.
    pub title_font_size: usize,
    /// Alignment word for the document heading.
    pub title_alignment: String,
    /// Default font size of section text.
    pub section_font_size: usize,
    /// Font size of timestamps.
    pub timestamp_font_size: usize,
    /// The per-record section list.
    pub merchant_template: MerchantTemplate,
    /// The summary section list.
    pub summary_template: SummaryTemplate,
    /// The configured output format name.
    pub output_format: String,
    /// The configured default output file name.
    pub default_output_name: String,
    /// Whether individual files per record are wanted.
    pub individual_bills: bool,
    /// Whether the summary table is wanted.
    pub summary_table: bool,
}

impl TemplateConfig {
    /// The font sizes leave room for the doubling applied to headings.
    pub open spec fn wf(self) -> bool {
        &&& self.title_font_size <= 30000
        &&& self.section_font_size <= 30000
        &&& self.timestamp_font_size <= 30000
    }
}

/// The alignment chosen by an optional alignment word: centered or right
/// when named, left for any other word, and the writer's default when no
/// word is given.
pub open spec fn spec_align_of(a: Option<Seq<char>>) -> Align {
    match a {
        Some(s) => if s == "center"@ {
            Align::Center
        } else if s == "right"@ {
            Align::Right
        } else {
            Align::Left
        },
        None => Align::Default,
    }
}

/// Chooses the alignment for an optional alignment word.
fn align_of(a: &Option<String>) -> (r: Align)
    ensures
        r == spec_align_of(match a {
            Some(s) => Some(s@),
            None => None,
        }),
{
    match a {
        Some(s) => {
            let sc = str_chars(s.as_str());
            let center = str_chars("center");
            let right = str_chars("right");
            if chars_equal(&sc, &center) {
                Align::Center
            } else if chars_equal(&sc, &right) {
                Align::Right
            } else {
                Align::Left
            }
        },
        None => Align::Default,
    }
}

/// The text with every supported placeholder replaced by the record's
/// value: the merchant name, the current year and month, the water
/// readings and usages, the unit prices and amounts, the total, the meter
/// detail lines and the meter count.  Unknown tokens stay verbatim.
pub open spec fn spec_placeholders(text: Seq<char>, b: MerchantBill, y: int, m: int) -> Seq<
    char,
> {
    let s1 = spec_replace(text, "{merchant_name}"@, b.merchant_name@);
    let s2 = spec_replace(s1, "{year}"@, spec_int_digits(y));
    let s3 = spec_replace(s2, "{month}"@, spec_int_digits(m));
    let s4 = spec_replace(s3, "{prev_water_reading}"@, spec_fmt_plain_milli(
        b.prev_water_reading as int,
    ));
    let s5 = spec_replace(s4, "{curr_water_reading}"@, spec_fmt_plain_milli(
        b.curr_water_reading as int,
    ));
    let s6 = spec_replace(s5, "{water_usage}"@, spec_fmt_plain_milli(b.water_usage as int));
    let s7 = spec_replace(s6, "{electricity_usage}"@, spec_fmt_plain_milli(
        b.electricity_usage as int,
    ));
    let s8 = spec_replace(s7, "{water_unit_price}"@, spec_fmt_fix2_milli(
        b.water_unit_price as int,
    ));
    let s9 = spec_replace(s8, "{electricity_unit_price}"@, spec_fmt_fix2_milli(
        b.electricity_unit_price as int,
    ));
    let s10 = spec_replace(s9, "{water_amount}"@, spec_fmt_fix2_milli(b.water_amount as int));
    let s11 = spec_replace(s10, "{electricity_amount}"@, spec_fmt_fix2_milli(
        b.electricity_amount as int,
    ));
    let s12 = spec_replace(s11, "{total_amount}"@, spec_fmt_fix2_milli(b.total_fee as int));
    let s13 = spec_replace(s12, "{electricity_details}"@, MerchantBill::spec_details(
        b.electricity_meters@,
    ));
    spec_replace(s13, "{electricity_meter_count}"@, spec_nat_digits(
        b.electricity_meters@.len() as int,
    ))
}

/// Replaces every supported placeholder with the record's value, for the
/// given current year and month.
pub fn replace_placeholders(text: &str, b: &MerchantBill, y: i64, m: u64) -> (r: String)
    requires
        b.base_ok(),
        -2_147_483_648 <= y <= 2_147_483_647,
        m <= 99,
    ensures
        r@ == spec_placeholders(text@, *b, y as int, m as int),
{
    proof {
        reveal_strlit("{merchant_name}");
        reveal_strlit("{year}");
        reveal_strlit("{month}");
        reveal_strlit("{prev_water_reading}");
        reveal_strlit("{curr_water_reading}");
        reveal_strlit("{water_usage}");
        reveal_strlit("{electricity_usage}");
        reveal_strlit("{water_unit_price}");
        reveal_strlit("{electricity_unit_price}");
        reveal_strlit("{water_amount}");
        reveal_strlit("{electricity_amount}");
        reveal_strlit("{total_amount}");
        reveal_strlit("{electricity_details}");
        reveal_strlit("{electricity_meter_count}");
    }
    let mut s = str_chars(text);
    s = replace_chars(&s, &str_chars("{merchant_name}"), &str_chars(b.merchant_name.as_str()));
    s = replace_chars(&s, &str_chars("{year}"), &int_digits_i128(y as i128));
    s = replace_chars(&s, &str_chars("{month}"), &int_digits_i128(m as i128));
    s = replace_chars(
        &s,
        &str_chars("{prev_water_reading}"),
        &fmt_plain_milli(b.prev_water_reading as i128),
    );
    s = replace_chars(
        &s,
        &str_chars("{curr_water_reading}"),
        &fmt_plain_milli(b.curr_water_reading as i128),
    );
    s = replace_chars(&s, &str_chars("{water_usage}"), &fmt_plain_milli(b.water_usage as i128));
    s = replace_chars(
        &s,
        &str_chars("{electricity_usage}"),
        &fmt_plain_milli(b.electricity_usage as i128),
    );
    s = replace_chars(
        &s,
        &str_chars("{water_unit_price}"),
        &fmt_fix2_milli(b.water_unit_price as i128),
    );
    s = replace_chars(
        &s,
        &str_chars("{electricity_unit_price}"),
        &fmt_fix2_milli(b.electricity_unit_price as i128),
    );
    s = replace_chars(&s, &str_chars("{water_amount}"), &fmt_fix2_milli(b.water_amount as i128));
    s = replace_chars(
        &s,
        &str_chars("{electricity_amount}"),
        &fmt_fix2_milli(b.electricity_amount as i128),
    );
    s = replace_chars(&s, &str_chars("{total_amount}"), &fmt_fix2_milli(b.total_fee as i128));
    let details = b.get_electricity_details();
    s = replace_chars(&s, &str_chars("{electricity_details}"), &str_chars(details.as_str()));
    let count = nat_digits_u128(b.electricity_meters.len() as u128);
    s = replace_chars(&s, &str_chars("{electricity_meter_count}"), &count);
    chars_to_string(&s)
}

/// The optional character view of an optional string.
pub open spec fn spec_opt_view(s: Option<String>) -> Option<Seq<char>> {
    match s {
        Some(t) => Some(t@),
        None => None,
    }
}

/// The blocks of one template section for one record.  The alignment of a
/// heading section is chosen by the caller: the complete document always
/// centers headings, the single-bill document follows the configured
/// title alignment.
pub open spec fn spec_section_blocks(
    sec: Section,
    cfg: TemplateConfig,
    b: MerchantBill,
    title_align: Align,
    y: int,
    m: int,
    d: int,
    h: int,
    mi: int,
    s: int,
) -> Seq<BlockM> {
    if sec.kind@ == "title"@ {
        match sec.content {
            Some(c) => seq![
                spec_text_para(
                    spec_placeholders(c@, b, y, m),
                    Some((cfg.title_font_size * 2) as int),
                    false,
                    None,
                    title_align,
                ),
            ],
            None => Seq::<BlockM>::empty(),
        }
    } else if sec.kind@ == "text"@ {
        match sec.content {
            Some(c) => seq![
                spec_text_para(
                    spec_placeholders(c@, b, y, m),
                    Some(
                        match sec.font_size {
                            Some(f) => f as int,
                            None => cfg.section_font_size as int,
                        },
                    ),
                    match sec.bold {
                        Some(x) => x,
                        None => false,
                    },
                    spec_opt_view(sec.color),
                    spec_align_of(spec_opt_view(sec.alignment)),
                ),
            ],
            None => Seq::<BlockM>::empty(),
        }
    } else if sec.kind@ == "section"@ {
        (match sec.title {
            Some(t) => seq![
                spec_text_para(
                    t@,
                    Some(((cfg.section_font_size + 4) * 2) as int),
                    true,
                    None,
                    Align::Default,
                ),
            ],
            None => Seq::<BlockM>::empty(),
        }) + (match sec.items {
            Some(list) => Seq::new(
                list@.len(),
                |i: int|
                    spec_text_para(
                        spec_placeholders(list@[i]@, b, y, m),
                        Some((cfg.section_font_size * 2) as int),
                        false,
                        None,
                        Align::Default,
                    ),
            ),
            None => Seq::<BlockM>::empty(),
        })
    } else if sec.kind@ == "timestamp"@ {
        match sec.content {
            Some(c) => seq![
                spec_text_para(
                    spec_replace(c@, "{datetime}"@, spec_timestamp_label(y, m, d, h, mi, s)),
                    Some(cfg.timestamp_font_size as int),
                    false,
                    None,
                    spec_align_of(spec_opt_view(sec.alignment)),
                ),
            ],
            None => Seq::<BlockM>::empty(),
        }
    } else {
        Seq::<BlockM>::empty()
    }
}

/// The blocks of the first `k` sections of a list, for one record.
pub open spec fn spec_sections_blocks(
    sections: Seq<Section>,
    k: int,
    cfg: TemplateConfig,
    b: MerchantBill,
    title_align: Align,
    y: int,
    m: int,
    d: int,
    h: int,
    mi: int,
    s: int,
) -> Seq<BlockM>
    decreases k,
{
    if k <= 0 {
        Seq::<BlockM>::empty()
    } else {
        spec_sections_blocks(sections, k - 1, cfg, b, title_align, y, m, d, h, mi, s)
            + spec_section_blocks(sections[k - 1], cfg, b, title_align, y, m, d, h, mi, s)
    }
}

/// The blocks of one record in the complete document: every section of the
/// per-record template, in order.
pub open spec fn spec_merchant_blocks(
    cfg: TemplateConfig,
    b: MerchantBill,
    title_align: Align,
    y: int,
    m: int,
    d: int,
    h: int,
    mi: int,
    s: int,
) -> Seq<BlockM> {
    spec_sections_blocks(
        cfg.merchant_template.sections@,
        cfg.merchant_template.sections@.len() as int,
        cfg,
        b,
        title_align,
        y,
        m,
        d,
        h,
        mi,
        s,
    )
}

/// The complete-document blocks of the first `k` records: each record's
/// sections, with a page break between records but not after the last.
pub open spec fn spec_complete_prefix(
    cfg: TemplateConfig,
    bills: Seq<MerchantBill>,
    k: int,
    y: int,
    m: int,
    d: int,
    h: int,
    mi: int,
    s: int,
) -> Seq<BlockM>
    decreases k,
{
    if k <= 0 {
        Seq::<BlockM>::empty()
    } else {
        spec_complete_prefix(cfg, bills, k - 1, y, m, d, h, mi, s) + spec_merchant_blocks(
            cfg,
            bills[k - 1],
            Align::Center,
            y,
            m,
            d,
            h,
            mi,
            s,
        ) + (if k < bills.len() {
            seq![spec_page_break()]
        } else {
            Seq::<BlockM>::empty()
        })
    }
}

/// The whole complete document: the document heading, then every record.
pub open spec fn spec_complete_doc(
    cfg: TemplateConfig,
    bills: Seq<MerchantBill>,
    y: int,
    m: int,
    d: int,
    h: int,
    mi: int,
    s: int,
) -> Seq<BlockM> {
    seq![
        spec_text_para(
            cfg.document_title@,
            Some((cfg.title_font_size * 2) as int),
            false,
            None,
            Align::Center,
        ),
    ] + spec_complete_prefix(cfg, bills, bills.len() as int, y, m, d, h, mi, s)
}

/// The heading alignment of a single-bill document: centered when the
/// configuration names the centered alignment, left otherwise.
pub open spec fn spec_title_align(cfg: TemplateConfig) -> Align {
    if cfg.title_alignment@ == "center"@ {
        Align::Center
    } else {
        Align::Left
    }
}

/// The whole single-bill document: the record's sections, with headings
/// following the configured title alignment, and a trailing page break.
pub open spec fn spec_bill_doc(
    cfg: TemplateConfig,
    b: MerchantBill,
    y: int,
    m: int,
    d: int,
    h: int,
    mi: int,
    s: int,
) -> Seq<BlockM> {
    spec_merchant_blocks(cfg, b, spec_title_align(cfg), y, m, d, h, mi, s) + seq![
        spec_page_break(),
    ]
}

/// A template-driven document generator.
pub struct DocumentGenerator {
    /// The configuration driving the layout.
    pub config: TemplateConfig,
}

impl DocumentGenerator {
    /// Wraps a configuration.
    pub fn new(config: TemplateConfig) -> (r: DocumentGenerator)
        ensures
            r.config == config,
    {
        DocumentGenerator { config }
    }

    /// Appends the blocks of one template section for one record.
    #[verifier::rlimit(100)]
    fn push_section(
        &self,
        doc: &mut Vec<Block>,
        sec: &Section,
        b: &MerchantBill,
        title_align: Align,
        y: i64,
        m: u64,
        d: u64,
        h: u64,
        mi: u64,
        s: u64,
    )
        requires
            self.config.wf(),
            b.base_ok(),
            -2_147_483_648 <= y <= 2_147_483_647,
            m <= 99,
            d <= 99,
            h <= 99,
            mi <= 99,
            s <= 99,
        ensures
            blocks_view(final(doc)@) == blocks_view(old(doc)@) + spec_section_blocks(
                *sec,
                self.config,
                *b,
                title_align,
                y as int,
                m as int,
                d as int,
                h as int,
                mi as int,
                s as int,
            ),
    {
        let ghost pre = blocks_view(doc@);
        let kind = str_chars(sec.kind.as_str());
        if chars_equal(&kind, &str_chars("title")) {
            match &sec.content {
                Some(c) => {
                    let t = replace_placeholders(c.as_str(), b, y, m);
                    push_text_para(
                        doc,
                        str_chars(t.as_str()),
                        Some(self.config.title_font_size * 2),
                        false,
                        None,
                        title_align,
                    );
                },
                None => {},
            }
        } else if chars_equal(&kind, &str_chars("text")) {
            match &sec.content {
                Some(c) => {
                    let t = replace_placeholders(c.as_str(), b, y, m);
                    let size: usize = match sec.font_size {
                        Some(f) => f,
                        None => self.config.section_font_size,
                    };
                    let bold: bool = match sec.bold {
                        Some(x) => x,
                        None => false,
                    };
                    let color: Option<String> = match &sec.color {
                        Some(cl) => Some(cl.clone()),
                        None => None,
                    };
                    let align = align_of(&sec.alignment);
                    push_text_para(doc, str_chars(t.as_str()), Some(size), bold, color, align);
                },
                None => {},
            }
        } else if chars_equal(&kind, &str_chars("section")) {
            match &sec.title {
                Some(t) => {
                    push_text_para(
                        doc,
                        str_chars(t.as_str()),
                        Some((self.config.section_font_size + 4) * 2),
                        true,
                        None,
                        Align::Default,
                    );
                },
                None => {},
            }
            let ghost mid = blocks_view(doc@);
            match &sec.items {
                Some(list) => {
                    let mut i: usize = 0;
                    while i < list.len()
                        invariant
                            i <= list@.len(),
                            self.config.wf(),
                            b.base_ok(),
                            -2_147_483_648 <= y <= 2_147_483_647,
                            m <= 99,
                            blocks_view(doc@) == mid + Seq::new(
                                i as nat,
                                |k: int|
                                    spec_text_para(
                                        spec_placeholders(list@[k]@, *b, y as int, m as int),
                                        Some((self.config.section_font_size * 2) as int),
                                        false,
                                        None,
                                        Align::Default,
                                    ),
                            ),
                        decreases list@.len() - i,
                    {
                        let t = replace_placeholders(list[i].as_str(), b, y, m);
                        push_text_para(
                            doc,
                            str_chars(t.as_str()),
                            Some(self.config.section_font_size * 2),
                            false,
                            None,
                            Align::Default,
                        );
                        proof {
                            assert(blocks_view(doc@) =~= mid + Seq::new(
                                (i + 1) as nat,
                                |k: int|
                                    spec_text_para(
                                        spec_placeholders(list@[k]@, *b, y as int, m as int),
                                        Some((self.config.section_font_size * 2) as int),
                                        false,
                                        None,
                                        Align::Default,
                                    ),
                            ));
                        }
                        i = i + 1;
                    }
                },
                None => {},
            }
        } else if chars_equal(&kind, &str_chars("timestamp")) {
            match &sec.content {
                Some(c) => {
                    proof {
                        reveal_strlit("{datetime}");
                    }
                    let stamp = timestamp_label(y, m, d, h, mi, s);
                    let cs = str_chars(c.as_str());
                    let replaced = crate::text::replace_chars(
                        &cs,
                        &str_chars("{datetime}"),
                        &stamp,
                    );
                    let align = align_of(&sec.alignment);
                    push_text_para(
                        doc,
                        replaced,
                        Some(self.config.timestamp_font_size),
                        false,
                        None,
                        align,
                    );
                },
                None => {},
            }
        }
        proof {
            assert(blocks_view(doc@) =~= pre + spec_section_blocks(
                *sec,
                self.config,
                *b,
                title_align,
                y as int,
                m as int,
                d as int,
                h as int,
                mi as int,
                s as int,
            ));
        }
    }

    /// Appends every section of the per-record template for one record.
    fn push_merchant_blocks(
        &self,
        doc: &mut Vec<Block>,
        b: &MerchantBill,
        title_align: Align,
        y: i64,
        m: u64,
        d: u64,
        h: u64,
        mi: u64,
        s: u64,
    )
        requires
            self.config.wf(),
            b.base_ok(),
            -2_147_483_648 <= y <= 2_147_483_647,
            m <= 99,
            d <= 99,
            h <= 99,
            mi <= 99,
            s <= 99,
        ensures
            blocks_view(final(doc)@) == blocks_view(old(doc)@) + spec_merchant_blocks(
                self.config,
                *b,
                title_align,
                y as int,
                m as int,
                d as int,
                h as int,
                mi as int,
                s as int,
            ),
    {
        let ghost pre = blocks_view(doc@);
        let n = self.config.merchant_template.sections.len();
        let mut i: usize = 0;
        while i < n
            invariant
                i <= n,
                n == self.config.merchant_template.sections@.len(),
                self.config.wf(),
                b.base_ok(),
                -2_147_483_648 <= y <= 2_147_483_647,
                m <= 99,
                d <= 99,
                h <= 99,
                mi <= 99,
                s <= 99,
                blocks_view(doc@) == pre + spec_sections_blocks(
                    self.config.merchant_template.sections@,
                    i as int,
                    self.config,
                    *b,
                    title_align,
                    y as int,
                    m as int,
                    d as int,
                    h as int,
                    mi as int,
                    s as int,
                ),
            decreases n - i,
        {
            self.push_section(
                doc,
                &self.config.merchant_template.sections[i],
                b,
                title_align,
                y,
                m,
                d,
                h,
                mi,
                s,
            );
            i = i + 1;
        }
    }

    /// The heading alignment of a single-bill document, from the
    /// configured alignment word.
    fn title_align(&self) -> (r: Align)
        ensures
            r == spec_title_align(self.config),
    {
        let word = str_chars(self.config.title_alignment.as_str());
        let center = str_chars("center");
        if chars_equal(&word, &center) {
            Align::Center
        } else {
            Align::Left
        }
    }

    /// Builds the complete document for a batch of records: the document
    /// heading, then every record's sections, records separated by page
    /// breaks.
    #[verifier::rlimit(100)]
    pub fn assemble_complete_document(&self, bills: &Vec<MerchantBill>) -> (r: Vec<Block>)
        requires
            self.config.wf(),
            forall|i: int| 0 <= i < bills@.len() ==> (#[trigger] bills@[i]).base_ok(),
        ensures
            exists|y: int, m: int, d: int, h: int, mi: int, s: int|
                1 <= m <= 12 && 1 <= d <= 31 && blocks_view(r@) == #[trigger] spec_complete_doc(
                    self.config,
                    bills@,
                    y,
                    m,
                    d,
                    h,
                    mi,
                    s,
                ),
    {
        let (y, m, d, h, mi, s) = now_parts();
        let mut doc: Vec<Block> = Vec::new();
        push_text_para(
            &mut doc,
            str_chars(self.config.document_title.as_str()),
            Some(self.config.title_font_size * 2),
            false,
            None,
            Align::Center,
        );
        let ghost head = blocks_view(doc@);
        let n = bills.len();
        let mut i: usize = 0;
        proof {
            assert(blocks_view(doc@) =~= head + spec_complete_prefix(
                self.config,
                bills@,
                0,
                y as int,
                m as int,
                d as int,
                h as int,
                mi as int,
                s as int,
            ));
        }
        while i < n
            invariant
                i <= n,
                n == bills@.len(),
                self.config.wf(),
                forall|k: int| 0 <= k < bills@.len() ==> (#[trigger] bills@[k]).base_ok(),
                -2_147_483_648 <= y <= 2_147_483_647,
                1 <= m <= 12,
                1 <= d <= 31,
                h <= 23,
                mi <= 59,
                s <= 59,
                blocks_view(doc@) == head + spec_complete_prefix(
                    self.config,
                    bills@,
                    i as int,
                    y as int,
                    m as int,
                    d as int,
                    h as int,
                    mi as int,
                    s as int,
                ),
            decreases n - i,
        {
            self.push_merchant_blocks(&mut doc, &bills[i], Align::Center, y, m, d, h, mi, s);
            if i + 1 < n {
                push_page_break(&mut doc);
            }
            proof {
                assert(blocks_view(doc@) =~= head + spec_complete_prefix(
                    self.config,
                    bills@,
                    i as int + 1,
                    y as int,
                    m as int,
                    d as int,
                    h as int,
                    mi as int,
                    s as int,
                ));
            }
            i = i + 1;
        }
        proof {
            assert(blocks_view(doc@) =~= spec_complete_doc(
                self.config,
                bills@,
                y as int,
                m as int,
                d as int,
                h as int,
                mi as int,
                s as int,
            ));
        }
        doc
    }

    /// Builds the complete document and renders it as a word-processing
    /// file.
    pub fn generate_complete_document(&self, bills: &Vec<MerchantBill>) -> (r: Result<
        Vec<u8>,
        BillError,
    >)
        requires
            self.config.wf(),
            forall|i: int| 0 <= i < bills@.len() ==> (#[trigger] bills@[i]).base_ok(),
        ensures
            r is Err ==> r->Err_0 is RenderFailed,
    {
        let blocks = self.assemble_complete_document(bills);
        crate::docx::render_blocks(&blocks)
    }

    /// Builds one record's document: its sections, with headings following
    /// the configured title alignment, and a trailing page break.
    pub fn assemble_merchant_bill(&self, bill: &MerchantBill) -> (r: Vec<Block>)
        requires
            self.config.wf(),
            bill.base_ok(),
        ensures
            exists|y: int, m: int, d: int, h: int, mi: int, s: int|
                1 <= m <= 12 && 1 <= d <= 31 && blocks_view(r@) == #[trigger] spec_bill_doc(
                    self.config,
                    *bill,
                    y,
                    m,
                    d,
                    h,
                    mi,
                    s,
                ),
    {
        let (y, m, d, h, mi, s) = now_parts();
        let ta = self.title_align();
        let mut doc: Vec<Block> = Vec::new();
        self.push_merchant_blocks(&mut doc, bill, ta, y, m, d, h, mi, s);
        push_page_break(&mut doc);
        proof {
            assert(blocks_view(doc@) =~= spec_bill_doc(
                self.config,
                *bill,
                y as int,
                m as int,
                d as int,
                h as int,
                mi as int,
                s as int,
            ));
        }
        doc
    }

    /// Builds one record's document and renders it as a word-processing
    /// file.
    pub fn generate_merchant_bill(&self, bill: &MerchantBill) -> (r: Result<Vec<u8>, BillError>)
        requires
            self.config.wf(),
            bill.base_ok(),
        ensures
            r is Err ==> r->Err_0 is RenderFailed,
    {
        let blocks = self.assemble_merchant_bill(bill);
        crate::docx::render_blocks(&blocks)
    }
}


/// A fixed-width summary cell: sized text in a cell of a given width.
pub open spec fn spec_wcell(text: Seq<char>, size: int, bold: bool, width: int) -> CellM {
    CellM {
        para: Some(
            ParaM {
                run: Some(RunM::Text { text, size: Some(size), bold, color: None }),
                align: Align::Default,
            },
        ),
        vmerge: None,
        grid_span: None,
        width: Some(width),
    }
}

/// One record's row of the fixed five-column summary table: position,
/// name, water amount, electricity amount, total.
pub open spec fn spec_tpl_summary_row(b: MerchantBill, idx: int) -> RowM {
    RowM {
        cells: seq![
            spec_wcell(spec_nat_digits(idx + 1), 36, false, 1200),
            spec_wcell(b.merchant_name@, 36, false, 4000),
            spec_wcell(spec_fmt_fix2_milli(b.water_amount as int), 36, false, 2400),
            spec_wcell(spec_fmt_fix2_milli(b.electricity_amount as int), 36, false, 2400),
            spec_wcell(spec_fmt_fix2_milli(b.total_fee as int), 36, false, 2400),
        ],
        height: Some(700),
    }
}

/// The fixed five-column summary table: a bold header, one row per record,
/// and a bold column-sum row.
pub open spec fn spec_tpl_summary_table(bills: Seq<MerchantBill>) -> TableM {
    TableM {
        rows: seq![
            RowM {
                cells: seq![
                    spec_wcell("序号"@, 40, true, 1200),
                    spec_wcell("商家名称"@, 40, true, 4000),
                    spec_wcell("水费(元)"@, 40, true, 2400),
                    spec_wcell("电费(元)"@, 40, true, 2400),
                    spec_wcell("合计(元)"@, 40, true, 2400),
                ],
                height: Some(800),
            },
        ] + Seq::new(bills.len(), |i: int| spec_tpl_summary_row(bills[i], i)) + seq![
            RowM {
                cells: seq![
                    spec_wcell("合计"@, 40, true, 1200),
                    spec_wcell(Seq::<char>::empty(), 40, true, 4000),
                    spec_wcell(spec_fmt_fix2_milli(sum_water_amount(bills)), 40, true, 2400),
                    spec_wcell(
                        spec_fmt_fix2_milli(sum_electricity_amount(bills)),
                        40,
                        true,
                        2400,
                    ),
                    spec_wcell(spec_fmt_fix2_milli(sum_total_fee(bills)), 40, true, 2400),
                ],
                height: Some(800),
            },
        ],
        width: Some(12400),
    }
}

/// Builds a fixed-width summary cell.
fn wcell(text: Vec<char>, size: usize, bold: bool, width: usize) -> (r: CellSpec)
    ensures
        r@ == spec_wcell(text@, size as int, bold, width as int),
{
    let t = chars_to_string(&text);
    let r = CellSpec {
        para: Some(
            ParaSpec {
                run: Some(RunSpec::Text { text: t, size: Some(size), bold, color: None }),
                align: Align::Default,
            },
        ),
        vmerge: None,
        grid_span: None,
        width: Some(width),
    };
    proof {
        assert(r@ =~~= spec_wcell(text@, size as int, bold, width as int));
    }
    r
}

/// Builds a five-cell row with a fixed minimum height.
fn wrow(c0: CellSpec, c1: CellSpec, c2: CellSpec, c3: CellSpec, c4: CellSpec, height: u16) -> (r:
    RowSpec)
    ensures
        r@ == (RowM {
            cells: seq![c0@, c1@, c2@, c3@, c4@],
            height: Some(height as int),
        }),
{
    let mut cells: Vec<CellSpec> = Vec::new();
    let ghost views = seq![c0@, c1@, c2@, c3@, c4@];
    cells.push(c0);
    cells.push(c1);
    cells.push(c2);
    cells.push(c3);
    cells.push(c4);
    let r = RowSpec { cells, height: Some(height) };
    proof {
        assert(r@ =~~= (RowM { cells: views, height: Some(height as int) }));
    }
    r
}

impl DocumentGenerator {
    /// Builds the fixed five-column summary table.
    #[verifier::rlimit(100)]
    fn create_summary_table(&self, bills: &Vec<MerchantBill>) -> (t: TableSpec)
        requires
            forall|i: int| 0 <= i < bills@.len() ==> (#[trigger] bills@[i]).wf(),
        ensures
            t@ == spec_tpl_summary_table(bills@),
    {
        let mut rows: Vec<RowSpec> = Vec::new();
        let hr = wrow(
            wcell(str_chars("序号"), 40, true, 1200),
            wcell(str_chars("商家名称"), 40, true, 4000),
            wcell(str_chars("水费(元)"), 40, true, 2400),
            wcell(str_chars("电费(元)"), 40, true, 2400),
            wcell(str_chars("合计(元)"), 40, true, 2400),
            800,
        );
        rows.push(hr);
        let ghost header_m = rows_view_t(rows@);
        proof {
            assert(header_m =~~= seq![spec_tpl_summary_table(bills@).rows[0]]);
        }
        let mut wa: i128 = 0;
        let mut ea: i128 = 0;
        let mut tt: i128 = 0;
        let mut i: usize = 0;
        proof {
            assert(bills@.subrange(0, 0) =~= Seq::<MerchantBill>::empty());
        }
        while i < bills.len()
            invariant
                i <= bills@.len(),
                forall|k: int| 0 <= k < bills@.len() ==> (#[trigger] bills@[k]).wf(),
                wa == sum_water_amount(bills@.subrange(0, i as int)),
                ea == sum_electricity_amount(bills@.subrange(0, i as int)),
                tt == sum_total_fee(bills@.subrange(0, i as int)),
                header_m.len() == 1,
                rows_view_t(rows@) == header_m + Seq::new(
                    i as nat,
                    |k: int| spec_tpl_summary_row(bills@[k], k),
                ),
            decreases bills@.len() - i,
        {
            let ghost pre_sub = bills@.subrange(0, i as int);
            let ghost post_sub = bills@.subrange(0, i as int + 1);
            proof {
                assert(post_sub.drop_last() =~= pre_sub);
                assert(post_sub.last() == bills@[i as int]);
                assert forall|k: int|
                    0 <= k < pre_sub.len() implies (#[trigger] pre_sub[k]).wf() by {
                    assert(pre_sub[k] == bills@[k]);
                }
                lemma_batch_sums_bound(pre_sub);
                lemma_wf_field_bounds(bills@[i as int]);
                assert(pre_sub.len() * FIELD_BOUND as int <= 18446744073709551615
                    * FIELD_BOUND as int) by (nonlinear_arith)
                    requires
                        pre_sub.len() <= 18446744073709551615,
                ;
            }
            let b = &bills[i];
            wa = wa + b.water_amount as i128;
            ea = ea + b.electricity_amount as i128;
            tt = tt + b.total_fee as i128;
            let idx_chars = nat_digits_u128((i + 1) as u128);
            let r = wrow(
                wcell(idx_chars, 36, false, 1200),
                wcell(str_chars(b.merchant_name.as_str()), 36, false, 4000),
                wcell(fmt_fix2_milli(b.water_amount as i128), 36, false, 2400),
                wcell(fmt_fix2_milli(b.electricity_amount as i128), 36, false, 2400),
                wcell(fmt_fix2_milli(b.total_fee as i128), 36, false, 2400),
                700,
            );
            proof {
                assert(r@ =~~= spec_tpl_summary_row(bills@[i as int], i as int));
            }
            let ghost prev_rows = rows@;
            rows.push(r);
            proof {
                let target = header_m + Seq::new(
                    (i + 1) as nat,
                    |k: int| spec_tpl_summary_row(bills@[k], k),
                );
                assert forall|k: int|
                    0 <= k < rows@.len() implies rows_view_t(rows@)[k] == target[k] by {
                    if k < prev_rows.len() {
                        assert(rows@[k] == prev_rows[k]);
                        assert(rows_view_t(prev_rows)[k] == (header_m + Seq::new(
                            i as nat,
                            |k2: int| spec_tpl_summary_row(bills@[k2], k2),
                        ))[k]);
                    } else {
                        assert(rows@[k] == r);
                    }
                }
                assert(rows_view_t(rows@) =~= target);
            }
            i = i + 1;
        }
        proof {
            assert(bills@.subrange(0, bills@.len() as int) =~= bills@);
            lemma_batch_sums_bound(bills@);
            assert(bills@.len() * FIELD_BOUND as int <= 18446744073709551615 * FIELD_BOUND as int)
                by (nonlinear_arith)
                requires
                    bills@.len() <= 18446744073709551615,
            ;
            assert(bills@.len() <= 18446744073709551615) by {
                assert(bills.len() == bills@.len());
            }
        }
        let empty_text: Vec<char> = Vec::new();
        let totals = wrow(
            wcell(str_chars("合计"), 40, true, 1200),
            wcell(empty_text, 40, true, 4000),
            wcell(fmt_fix2_milli(wa), 40, true, 2400),
            wcell(fmt_fix2_milli(ea), 40, true, 2400),
            wcell(fmt_fix2_milli(tt), 40, true, 2400),
            800,
        );
        proof {
            assert(totals@ =~~= spec_tpl_summary_table(bills@).rows.last());
        }
        let ghost prev_rows = rows@;
        rows.push(totals);
        proof {
            let target_rows = spec_tpl_summary_table(bills@).rows;
            assert forall|k: int|
                0 <= k < rows@.len() implies rows_view_t(rows@)[k] == target_rows[k] by {
                if k < prev_rows.len() {
                    assert(rows@[k] == prev_rows[k]);
                    assert(rows_view_t(prev_rows)[k] == (header_m + Seq::new(
                        bills@.len(),
                        |k2: int| spec_tpl_summary_row(bills@[k2], k2),
                    ))[k]);
                } else {
                    assert(rows@[k] == totals);
                }
            }
            assert(rows_view_t(rows@) =~= target_rows);
        }
        let t = TableSpec { rows, width: Some(12400) };
        proof {
            assert(t@ =~~= spec_tpl_summary_table(bills@));
        }
        t
    }

    /// The blocks of one summary section.
    pub open spec fn spec_summary_section_blocks(
        sec: Section,
        cfg: TemplateConfig,
        bills: Seq<MerchantBill>,
        y: int,
        m: int,
        d: int,
        h: int,
        mi: int,
        s: int,
    ) -> Seq<BlockM> {
        if sec.kind@ == "title"@ {
            match sec.content {
                Some(c) => seq![
                    spec_text_para(
                        c@,
                        Some((cfg.title_font_size * 2) as int),
                        false,
                        None,
                        Align::Center,
                    ),
                ],
                None => Seq::<BlockM>::empty(),
            }
        } else if sec.kind@ == "text"@ {
            match sec.content {
                Some(c) => seq![
                    spec_text_para(
                        spec_placeholders(c@, bills[0], y, m),
                        Some(cfg.section_font_size as int),
                        false,
                        None,
                        Align::Default,
                    ),
                ],
                None => Seq::<BlockM>::empty(),
            }
        } else if sec.kind@ == "table"@ {
            seq![BlockM::Table(spec_tpl_summary_table(bills))]
        } else if sec.kind@ == "timestamp"@ {
            match sec.content {
                Some(c) => seq![
                    spec_text_para(
                        spec_replace(c@, "{datetime}"@, spec_timestamp_label(y, m, d, h, mi, s)),
                        Some(cfg.timestamp_font_size as int),
                        false,
                        None,
                        Align::Right,
                    ),
                ],
                None => Seq::<BlockM>::empty(),
            }
        } else {
            Seq::<BlockM>::empty()
        }
    }

    /// The blocks of the first `k` summary sections.
    pub open spec fn spec_summary_prefix(
        sections: Seq<Section>,
        k: int,
        cfg: TemplateConfig,
        bills: Seq<MerchantBill>,
        y: int,
        m: int,
        d: int,
        h: int,
        mi: int,
        s: int,
    ) -> Seq<BlockM>
        decreases k,
    {
        if k <= 0 {
            Seq::<BlockM>::empty()
        } else {
            Self::spec_summary_prefix(sections, k - 1, cfg, bills, y, m, d, h, mi, s)
                + Self::spec_summary_section_blocks(
                sections[k - 1],
                cfg,
                bills,
                y,
                m,
                d,
                h,
                mi,
                s,
            )
        }
    }

    /// The whole summary document: every summary section in order.
    pub open spec fn spec_summary_doc(
        cfg: TemplateConfig,
        bills: Seq<MerchantBill>,
        y: int,
        m: int,
        d: int,
        h: int,
        mi: int,
        s: int,
    ) -> Seq<BlockM> {
        Self::spec_summary_prefix(
            cfg.summary_template.sections@,
            cfg.summary_template.sections@.len() as int,
            cfg,
            bills,
            y,
            m,
            d,
            h,
            mi,
            s,
        )
    }

    /// Builds the summary document: every summary section in order.
    #[verifier::rlimit(100)]
    pub fn assemble_summary(&self, bills: &Vec<MerchantBill>) -> (r: Vec<Block>)
        requires
            self.config.wf(),
            bills@.len() >= 1,
            forall|i: int| 0 <= i < bills@.len() ==> (#[trigger] bills@[i]).wf(),
        ensures
            exists|y: int, m: int, d: int, h: int, mi: int, s: int|
                1 <= m <= 12 && 1 <= d <= 31 && blocks_view(r@) == #[trigger] Self::spec_summary_doc(
                    self.config,
                    bills@,
                    y,
                    m,
                    d,
                    h,
                    mi,
                    s,
                ),
    {
        let (y, m, d, h, mi, s) = now_parts();
        let mut doc: Vec<Block> = Vec::new();
        let n = self.config.summary_template.sections.len();
        let mut i: usize = 0;
        proof {
            assert(blocks_view(doc@) =~= Self::spec_summary_prefix(
                self.config.summary_template.sections@,
                0,
                self.config,
                bills@,
                y as int,
                m as int,
                d as int,
                h as int,
                mi as int,
                s as int,
            ));
        }
        while i < n
            invariant
                i <= n,
                n == self.config.summary_template.sections@.len(),
                self.config.wf(),
                bills@.len() >= 1,
                forall|k: int| 0 <= k < bills@.len() ==> (#[trigger] bills@[k]).wf(),
                -2_147_483_648 <= y <= 2_147_483_647,
                1 <= m <= 12,
                1 <= d <= 31,
                h <= 23,
                mi <= 59,
                s <= 59,
                blocks_view(doc@) == Self::spec_summary_prefix(
                    self.config.summary_template.sections@,
                    i as int,
                    self.config,
                    bills@,
                    y as int,
                    m as int,
                    d as int,
                    h as int,
                    mi as int,
                    s as int,
                ),
            decreases n - i,
        {
            let ghost pre = blocks_view(doc@);
            let sec = &self.config.summary_template.sections[i];
            let kind = str_chars(sec.kind.as_str());
            if chars_equal(&kind, &str_chars("title")) {
                match &sec.content {
                    Some(c) => {
                        push_text_para(
                            &mut doc,
                            str_chars(c.as_str()),
                            Some(self.config.title_font_size * 2),
                            false,
                            None,
                            Align::Center,
                        );
                    },
                    None => {},
                }
            } else if chars_equal(&kind, &str_chars("text")) {
                match &sec.content {
                    Some(c) => {
                        let t = replace_placeholders(c.as_str(), &bills[0], y, m);
                        push_text_para(
                            &mut doc,
                            str_chars(t.as_str()),
                            Some(self.config.section_font_size),
                            false,
                            None,
                            Align::Default,
                        );
                    },
                    None => {},
                }
            } else if chars_equal(&kind, &str_chars("table")) {
                let table = self.create_summary_table(bills);
                let ghost table_m = table@;
                let ghost prev_doc = blocks_view(doc@);
                doc.push(Block::Table(table));
                proof {
                    assert forall|k: int|
                        0 <= k < blocks_view(doc@).len() implies blocks_view(doc@)[k] == (
                    prev_doc.push(BlockM::Table(table_m)))[k] by {
                        if k < prev_doc.len() {
                            assert(blocks_view(doc@)[k] == prev_doc[k]);
                        } else {
                            assert(blocks_view(doc@)[k] == BlockM::Table(table_m));
                        }
                    }
                    assert(blocks_view(doc@) =~= prev_doc.push(BlockM::Table(table_m)));
                }
            } else if chars_equal(&kind, &str_chars("timestamp")) {
                match &sec.content {
                    Some(c) => {
                        proof {
                            reveal_strlit("{datetime}");
                        }
                        let stamp = timestamp_label(y, m, d, h, mi, s);
                        let cs = str_chars(c.as_str());
                        let replaced = replace_chars(&cs, &str_chars("{datetime}"), &stamp);
                        push_text_para(
                            &mut doc,
                            replaced,
                            Some(self.config.timestamp_font_size),
                            false,
                            None,
                            Align::Right,
                        );
                    },
                    None => {},
                }
            }
            proof {
                assert(blocks_view(doc@) =~= pre + Self::spec_summary_section_blocks(
                    self.config.summary_template.sections@[i as int],
                    self.config,
                    bills@,
                    y as int,
                    m as int,
                    d as int,
                    h as int,
                    mi as int,
                    s as int,
                ));
            }
            i = i + 1;
        }
        proof {
            assert(blocks_view(doc@) =~= Self::spec_summary_doc(
                self.config,
                bills@,
                y as int,
                m as int,
                d as int,
                h as int,
                mi as int,
                s as int,
            ));
        }
        doc
    }

    /// Builds the summary document and renders it as a word-processing
    /// file.
    pub fn generate_summary_table(&self, bills: &Vec<MerchantBill>) -> (r: Result<
        Vec<u8>,
        BillError,
    >)
        requires
            self.config.wf(),
            bills@.len() >= 1,
            forall|i: int| 0 <= i < bills@.len() ==> (#[trigger] bills@[i]).wf(),
        ensures
            r is Err ==> r->Err_0 is RenderFailed,
    {
        let blocks = self.assemble_summary(bills);
        crate::docx::render_blocks(&blocks)
    }
}

/// The views of a row list.
pub open spec fn rows_view_t(s: Seq<RowSpec>) -> Seq<RowM> {
    Seq::new(s.len(), |i: int| s[i]@)
}

} // verus!
