//! Choosing a reader by file name.
//!
//! The extension is the text after the last dot of the last slash-separated
//! component, unless that component starts with the only dot; it is folded
//! to lower case before dispatch.  A name whose extension is unknown still
//! dispatches when it literally ends in a known suffix; anything else is
//! unsupported.

use vstd::prelude::*;
use crate::text::{spec_lower_char, lower_char, str_chars, chars_to_string, chars_equal};

verus! {

/// How an input file should be read.
pub enum InputKind {
    /// A spreadsheet workbook.
    Spreadsheet,
    /// Comma-delimited text.
    DelimitedText,
    /// No reader for this name.
    Unknown,
}

/// The text after the last occurrence of a character; the whole text when
/// the character does not occur.
pub open spec fn spec_after_last(s: Seq<char>, c: char) -> Seq<char>
    decreases s.len(),
{
    if s.len() == 0 {
        s
    } else if s.last() == c {
        Seq::<char>::empty()
    } else {
        spec_after_last(s.drop_last(), c).push(s.last())
    }
}

/// Whether the text contains the character at a position after the first.
pub open spec fn spec_has_late(s: Seq<char>, c: char) -> bool {
    exists|i: int| 1 <= i < s.len() && s[i] == c
}

/// Every character folded to lower case (ASCII letters only).
pub open spec fn spec_lower_all(s: Seq<char>) -> Seq<char> {
    Seq::new(s.len(), |i: int| spec_lower_char(s[i]))
}

/// The lower-cased extension of a file name; empty when it has none.
pub open spec fn spec_ext_lower(name: Seq<char>) -> Seq<char> {
    let tail = spec_after_last(name, '/');
    if spec_has_late(tail, '.') {
        spec_lower_all(spec_after_last(tail, '.'))
    } else {
        Seq::<char>::empty()
    }
}

/// Whether the text ends in the given suffix.
pub open spec fn spec_ends_with(s: Seq<char>, suffix: Seq<char>) -> bool {
    s.len() >= suffix.len() && s.subrange(s.len() - suffix.len(), s.len() as int) == suffix
}

/// The reader chosen for a file name: by lower-cased extension first, then
/// by a literal known suffix, otherwise none.
pub open spec fn spec_input_kind(name: Seq<char>) -> InputKind {
    if spec_ext_lower(name) == "xlsx"@ {
        InputKind::Spreadsheet
    } else if spec_ext_lower(name) == "csv"@ {
        InputKind::DelimitedText
    } else if spec_ends_with(name, ".xlsx"@) {
        InputKind::Spreadsheet
    } else if spec_ends_with(name, ".csv"@) {
        InputKind::DelimitedText
    } else {
        InputKind::Unknown
    }
}

/// The text after the last occurrence of a character.
fn after_last(s: &Vec<char>, c: char) -> (r: Vec<char>)
    ensures
        r@ == spec_after_last(s@, c),
{
    let mut start: usize = s.len();
    let mut i: usize = s.len();
    let mut found: bool = false;
    while i > 0 && !found
        invariant
            i <= s@.len(),
            !found ==> start == s@.len() && forall|j: int| i <= j < s@.len() ==> s@[j] != c,
            found ==> 0 < start <= s@.len() && s@[start - 1] == c && forall|j: int|
                start <= j < s@.len() ==> s@[j] != c,
        decreases i + (if found { 0int } else { 1int }),
    {
        if s[i - 1] == c {
            found = true;
            start = i;
        } else {
            i = i - 1;
        }
    }
    let from: usize = if found {
        start
    } else {
        0
    };
    let mut out: Vec<char> = Vec::new();
    let mut m: usize = from;
    while m < s.len()
        invariant
            from <= m <= s@.len(),
            out@ == s@.subrange(from as int, m as int),
        decreases s@.len() - m,
    {
        proof {
            assert(s@.subrange(from as int, m as int + 1) =~= s@.subrange(
                from as int,
                m as int,
            ).push(s@[m as int]));
        }
        out.push(s[m]);
        m = m + 1;
    }
    proof {
        lemma_after_last_suffix(s@, c, from as int);
    }
    out
}

/// When every character from `from` on differs from `c`, and either `from`
/// is the start or the character before it is `c`, the suffix from `from`
/// is exactly the text after the last occurrence.
proof fn lemma_after_last_suffix(s: Seq<char>, c: char, from: int)
    requires
        0 <= from <= s.len(),
        forall|j: int| from <= j < s.len() ==> s[j] != c,
        from > 0 ==> s[from - 1] == c,
        from == 0 ==> forall|j: int| 0 <= j < s.len() ==> s[j] != c,
    ensures
        spec_after_last(s, c) =~= s.subrange(from, s.len() as int),
    decreases s.len(),
{
    if s.len() == 0 {
    } else if s.last() == c {
        assert(from == s.len());
    } else {
        if from == s.len() {
            assert(s[from - 1] != c);
        } else {
            lemma_after_last_suffix(s.drop_last(), c, from);
            assert(s.subrange(from, s.len() as int).drop_last() =~= s.drop_last().subrange(
                from,
                s.len() - 1,
            ));
            assert(s.subrange(from, s.len() as int) =~= s.drop_last().subrange(
                from,
                s.len() - 1,
            ).push(s.last()));
        }
    }
}

/// The lower-cased extension of a file name, for dispatch and messages.
pub fn extension_lower(name: &str) -> (r: String)
    ensures
        r@ == spec_ext_lower(name@),
{
    let cs = str_chars(name);
    let tail = after_last(&cs, '/');
    let mut has: bool = false;
    let mut i: usize = 1;
    while i < tail.len()
        invariant
            1 <= i || tail@.len() == 0,
            i <= tail@.len() || (tail@.len() == 0 && i == 1),
            has <==> exists|j: int| 1 <= j < i && tail@[j] == '.',
        decreases tail@.len() - i,
    {
        if tail[i] == '.' {
            has = true;
        }
        i = i + 1;
    }
    if has == false {
        proof {
            assert(!spec_has_late(tail@, '.'));
        }
        return String::new();
    }
    let ext = after_last(&tail, '.');
    let mut out: Vec<char> = Vec::new();
    let mut m: usize = 0;
    while m < ext.len()
        invariant
            m <= ext@.len(),
            out@.len() == m,
            forall|j: int| 0 <= j < m ==> #[trigger] out@[j] == spec_lower_char(ext@[j]),
        decreases ext@.len() - m,
    {
        out.push(lower_char(ext[m]));
        m = m + 1;
    }
    proof {
        assert(out@ =~= spec_lower_all(ext@));
    }
    chars_to_string(&out)
}

/// Whether the name literally ends in the given suffix.
fn ends_with_chars(s: &Vec<char>, suffix: &Vec<char>) -> (r: bool)
    ensures
        r == spec_ends_with(s@, suffix@),
{
    if suffix.len() > s.len() {
        return false;
    }
    let from = s.len() - suffix.len();
    let mut i: usize = 0;
    while i < suffix.len()
        invariant
            i <= suffix@.len(),
            suffix@.len() <= s@.len(),
            from == s@.len() - suffix@.len(),
            forall|j: int| 0 <= j < i ==> s@[from + j] == suffix@[j],
        decreases suffix@.len() - i,
    {
        if s[from + i] != suffix[i] {
            proof {
                assert(s@.subrange(s@.len() - suffix@.len(), s@.len() as int)[i as int] != suffix@[
                    i as int]);
            }
            return false;
        }
        i = i + 1;
    }
    proof {
        assert(s@.subrange(s@.len() - suffix@.len(), s@.len() as int) =~= suffix@);
    }
    true
}

/// Two strings of equal content.
fn string_eq_lit(a: &String, b: &str) -> (r: bool)
    ensures
        r == (a@ == b@),
{
    let ac = str_chars(a.as_str());
    let bc = str_chars(b);
    chars_equal(&ac, &bc)
}

/// Chooses the reader for a file name.
pub fn input_kind(name: &str) -> (r: InputKind)
    ensures
        r == spec_input_kind(name@),
{
    let ext = extension_lower(name);
    if string_eq_lit(&ext, "xlsx") {
        return InputKind::Spreadsheet;
    }
    if string_eq_lit(&ext, "csv") {
        return InputKind::DelimitedText;
    }
    let cs = str_chars(name);
    let sx = str_chars(".xlsx");
    if ends_with_chars(&cs, &sx) {
        return InputKind::Spreadsheet;
    }
    let sc = str_chars(".csv");
    if ends_with_chars(&cs, &sc) {
        return InputKind::DelimitedText;
    }
    InputKind::Unknown
}

} // verus!
