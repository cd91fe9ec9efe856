//! Character-sequence utilities: conversions between `str`, `String` and
//! `Vec<char>`, trimming, case folding, substring search, replacement and
//! splitting.  All logic works on `Vec<char>` so that contracts can speak of
//! `Seq<char>` directly.

use vstd::prelude::*;

verus! {

/// Relies on std's `String::push`: appends exactly the given character.
#[verifier::external_body]
pub fn push_char(s: &mut String, c: char)
    ensures
        final(s)@ == old(s)@.push(c),
{
    s.push(c)
}

/// Builds a `String` holding exactly the given characters.
pub fn chars_to_string(v: &Vec<char>) -> (r: String)
    ensures
        r@ == v@,
{
    let mut s = String::new();
    let mut i: usize = 0;
    while i < v.len()
        invariant
            i <= v.len(),
            s@ == v@.subrange(0, i as int),
        decreases v.len() - i,
    {
        push_char(&mut s, v[i]);
        i = i + 1;
    }
    proof {
        assert(s@ =~= v@);
    }
    s
}

/// Collects the characters of a string slice.
pub fn str_chars(s: &str) -> (r: Vec<char>)
    ensures
        r@ == s@,
{
    let n = s.unicode_len();
    let mut v: Vec<char> = Vec::new();
    let mut i: usize = 0;
    while i < n
        invariant
            i <= n,
            n == s@.len(),
            v@ == s@.subrange(0, i as int),
        decreases n - i,
    {
        v.push(s.get_char(i));
        i = i + 1;
    }
    proof {
        assert(v@ =~= s@);
    }
    v
}

/// The Unicode `White_Space` characters: what the standard library's string
/// trimming treats as whitespace.
pub open spec fn spec_is_space(c: char) -> bool {
    c == ' ' || c == '\t' || c == '\n' || c == '\r' || c == '\u{0b}' || c == '\u{0c}' || c
        == '\u{85}' || c == '\u{a0}' || c == '\u{1680}' || ('\u{2000}' <= c && c <= '\u{200a}') || c
        == '\u{2028}' || c == '\u{2029}' || c == '\u{202f}' || c == '\u{205f}' || c == '\u{3000}'
}

/// Decides whether a character is Unicode whitespace.
pub fn is_space(c: char) -> (r: bool)
    ensures
        r == spec_is_space(c),
{
    c == ' ' || c == '\t' || c == '\n' || c == '\r' || c == '\u{0b}' || c == '\u{0c}' || c
        == '\u{85}' || c == '\u{a0}' || c == '\u{1680}' || ('\u{2000}' <= c && c <= '\u{200a}') || c
        == '\u{2028}' || c == '\u{2029}' || c == '\u{202f}' || c == '\u{205f}' || c == '\u{3000}'
}

/// An upper-case ASCII letter folded to lower case; anything else unchanged.
pub open spec fn spec_lower_char(c: char) -> char {
    if 'A' <= c && c <= 'Z' {
        (((c as u8) - 65 + 97) as char)
    } else {
        c
    }
}

/// Folds one character to lower case (ASCII letters only).
pub fn lower_char(c: char) -> (r: char)
    ensures
        r == spec_lower_char(c),
{
    if 'A' <= c && c <= 'Z' {
        ((c as u8) - 65 + 97) as char
    } else {
        c
    }
}

/// A label normalized for header matching: every whitespace character
/// removed, ASCII letters folded to lower case.
pub open spec fn spec_normal(s: Seq<char>) -> Seq<char>
    decreases s.len(),
{
    if s.len() == 0 {
        Seq::<char>::empty()
    } else if spec_is_space(s.last()) {
        spec_normal(s.drop_last())
    } else {
        spec_normal(s.drop_last()).push(spec_lower_char(s.last()))
    }
}

/// Normalizes characters for header matching: drops whitespace, folds ASCII
/// letters to lower case.
pub fn normal_chars(v: &Vec<char>) -> (r: Vec<char>)
    ensures
        r@ == spec_normal(v@),
{
    let mut out: Vec<char> = Vec::new();
    let mut i: usize = 0;
    while i < v.len()
        invariant
            i <= v.len(),
            out@ == spec_normal(v@.subrange(0, i as int)),
        decreases v.len() - i,
    {
        proof {
            assert(v@.subrange(0, i as int + 1).drop_last() =~= v@.subrange(0, i as int));
        }
        if !is_space(v[i]) {
            out.push(lower_char(v[i]));
        }
        i = i + 1;
    }
    proof {
        assert(v@.subrange(0, v@.len() as int) =~= v@);
    }
    out
}

/// Whether `needle` occurs in `hay` starting at position `at`.
pub open spec fn spec_matches_at(hay: Seq<char>, at: int, needle: Seq<char>) -> bool {
    &&& 0 <= at
    &&& at + needle.len() <= hay.len()
    &&& hay.subrange(at, at + needle.len()) == needle
}

/// Whether `needle` occurs anywhere in `hay`.
pub open spec fn spec_contains(hay: Seq<char>, needle: Seq<char>) -> bool {
    exists|at: int| spec_matches_at(hay, at, needle)
}

/// Decides whether `needle` occurs in `hay` starting at position `at`.
pub fn matches_at(hay: &Vec<char>, at: usize, needle: &Vec<char>) -> (r: bool)
    requires
        at + needle@.len() <= hay@.len(),
    ensures
        r == spec_matches_at(hay@, at as int, needle@),
{
    let mut j: usize = 0;
    while j < needle.len()
        invariant
            j <= needle.len(),
            at + needle@.len() <= hay@.len(),
            hay@.subrange(at as int, at + j as int) == needle@.subrange(0, j as int),
        decreases needle.len() - j,
    {
        proof {
            assert(hay@.len() <= usize::MAX) by {
                assert(hay.len() == hay@.len());
            }
            assert(at + j < hay@.len());
        }
        if hay[at + j] != needle[j] {
            proof {
                assert(hay@.subrange(at as int, at + needle@.len())[j as int] != needle@[j as int]);
            }
            return false;
        }
        proof {
            assert(hay@.subrange(at as int, at + (j + 1) as int) =~= hay@.subrange(
                at as int,
                at + j as int,
            ).push(hay@[at + j]));
            assert(needle@.subrange(0, (j + 1) as int) =~= needle@.subrange(0, j as int).push(
                needle@[j as int],
            ));
        }
        j = j + 1;
    }
    proof {
        assert(hay@.subrange(at as int, at + needle@.len()) =~= needle@.subrange(
            0,
            needle@.len() as int,
        ));
        assert(needle@.subrange(0, needle@.len() as int) =~= needle@);
    }
    true
}

/// Decides whether `needle` occurs anywhere in `hay`.
pub fn contains_chars(hay: &Vec<char>, needle: &Vec<char>) -> (r: bool)
    ensures
        r == spec_contains(hay@, needle@),
{
    if needle.len() > hay.len() {
        return false;
    }
    if needle.len() == 0 {
        proof {
            assert(spec_matches_at(hay@, 0, needle@)) by {
                assert(hay@.subrange(0, 0) =~= needle@);
            }
        }
        return true;
    }
    let mut at: usize = 0;
    while at <= hay.len() - needle.len()
        invariant
            0 < needle@.len() <= hay@.len(),
            at <= hay@.len() - needle@.len() + 1,
            forall|k: int| 0 <= k < at ==> !spec_matches_at(hay@, k, needle@),
        decreases hay.len() - at,
    {
        if matches_at(hay, at, needle) {
            return true;
        }
        at = at + 1;
    }
    false
}

/// Characters with leading whitespace removed.
pub open spec fn spec_trim_start(s: Seq<char>) -> Seq<char>
    decreases s.len(),
{
    if s.len() > 0 && spec_is_space(s[0]) {
        spec_trim_start(s.drop_first())
    } else {
        s
    }
}

/// Characters with trailing whitespace removed.
pub open spec fn spec_trim_end(s: Seq<char>) -> Seq<char>
    decreases s.len(),
{
    if s.len() > 0 && spec_is_space(s.last()) {
        spec_trim_end(s.drop_last())
    } else {
        s
    }
}

/// Characters with leading and trailing whitespace removed.
pub open spec fn spec_trim(s: Seq<char>) -> Seq<char> {
    spec_trim_end(spec_trim_start(s))
}

/// Removes leading and trailing whitespace.
pub fn trim_chars(v: &Vec<char>) -> (r: Vec<char>)
    ensures
        r@ == spec_trim(v@),
{
    let mut start: usize = 0;
    proof {
        assert(v@.subrange(0, v@.len() as int) =~= v@);
    }
    while start < v.len() && is_space(v[start])
        invariant
            start <= v.len(),
            spec_trim_start(v@) == spec_trim_start(v@.subrange(start as int, v@.len() as int)),
        decreases v.len() - start,
    {
        proof {
            assert(v@.subrange(start as int, v@.len() as int).drop_first() =~= v@.subrange(
                start as int + 1,
                v@.len() as int,
            ));
        }
        start = start + 1;
    }
    let mut end: usize = v.len();
    proof {
        assert(spec_trim_start(v@.subrange(start as int, v@.len() as int)) =~= v@.subrange(
            start as int,
            v@.len() as int,
        ));
    }
    while end > start && is_space(v[end - 1])
        invariant
            start <= end <= v.len(),
            spec_trim_end(v@.subrange(start as int, v@.len() as int)) == spec_trim_end(
                v@.subrange(start as int, end as int),
            ),
        decreases end,
    {
        proof {
            assert(v@.subrange(start as int, end as int).drop_last() =~= v@.subrange(
                start as int,
                end as int - 1,
            ));
        }
        end = end - 1;
    }
    let mut out: Vec<char> = Vec::new();
    let mut i: usize = start;
    while i < end
        invariant
            start <= i <= end <= v.len(),
            out@ == v@.subrange(start as int, i as int),
        decreases end - i,
    {
        proof {
            assert(v@.subrange(start as int, i as int + 1) =~= v@.subrange(
                start as int,
                i as int,
            ).push(v@[i as int]));
        }
        out.push(v[i]);
        i = i + 1;
    }
    proof {
        assert(spec_trim_end(v@.subrange(start as int, end as int)) =~= v@.subrange(
            start as int,
            end as int,
        ));
    }
    out
}

/// The text with every occurrence of `from` replaced by `to`, scanning left
/// to right without revisiting replaced text.
pub open spec fn spec_replace(s: Seq<char>, from: Seq<char>, to: Seq<char>) -> Seq<char>
    recommends
        from.len() > 0,
    decreases s.len(),
{
    if s.len() == 0 || from.len() == 0 {
        s
    } else if spec_matches_at(s, 0, from) {
        to + spec_replace(s.skip(from.len() as int), from, to)
    } else {
        seq![s[0]] + spec_replace(s.drop_first(), from, to)
    }
}

/// Replaces every occurrence of `from` with `to`, scanning left to right.
pub fn replace_chars(s: &Vec<char>, from: &Vec<char>, to: &Vec<char>) -> (r: Vec<char>)
    requires
        from@.len() > 0,
    ensures
        r@ == spec_replace(s@, from@, to@),
{
    let mut out: Vec<char> = Vec::new();
    let mut i: usize = 0;
    proof {
        assert(s@.skip(0) =~= s@);
        assert(Seq::<char>::empty() + spec_replace(s@, from@, to@) =~= spec_replace(
            s@,
            from@,
            to@,
        ));
    }
    while i < s.len()
        invariant
            i <= s.len(),
            from@.len() > 0,
            spec_replace(s@, from@, to@) == out@ + spec_replace(
                s@.skip(i as int),
                from@,
                to@,
            ),
        decreases s.len() - i,
    {
        let can = from.len() <= s.len() - i;
        let hit = if can {
            matches_at(s, i, from)
        } else {
            false
        };
        proof {
            assert(s@.skip(i as int).len() == s@.len() - i);
            if hit {
                assert(spec_matches_at(s@.skip(i as int), 0, from@)) by {
                    assert(s@.skip(i as int).subrange(0, from@.len() as int) =~= s@.subrange(
                        i as int,
                        i + from@.len(),
                    ));
                }
                assert(s@.skip(i as int).skip(from@.len() as int) =~= s@.skip(
                    i + from@.len(),
                ));
            } else {
                if s@.len() - i > 0 {
                    if i + from@.len() <= s@.len() {
                        assert(!spec_matches_at(s@.skip(i as int), 0, from@)) by {
                            assert(s@.skip(i as int).subrange(0, from@.len() as int) =~= s@.subrange(
                                i as int,
                                i + from@.len(),
                            ));
                        }
                    } else {
                        assert(!spec_matches_at(s@.skip(i as int), 0, from@));
                    }
                    assert(s@.skip(i as int).drop_first() =~= s@.skip(i + 1));
                    assert(s@.skip(i as int)[0] == s@[i as int]);
                }
            }
        }
        if hit {
            crate::num::append_chars(&mut out, to);
            i = i + from.len();
        } else {
            out.push(s[i]);
            i = i + 1;
        }
    }
    proof {
        assert(s@.skip(s@.len() as int) =~= Seq::<char>::empty());
        assert(out@ =~= out@ + spec_replace(s@.skip(s@.len() as int), from@, to@));
    }
    out
}

/// The fields obtained by splitting on a separator; empty fields are kept.
pub open spec fn spec_split(s: Seq<char>, sep: char) -> Seq<Seq<char>>
    decreases s.len(),
{
    if s.len() == 0 {
        seq![Seq::<char>::empty()]
    } else if s.last() == sep {
        spec_split(s.drop_last(), sep).push(Seq::<char>::empty())
    } else {
        let rest = spec_split(s.drop_last(), sep);
        rest.update(rest.len() - 1, rest.last().push(s.last()))
    }
}

/// Splits on a separator character; empty fields are kept.
pub fn split_chars(v: &Vec<char>, sep: char) -> (r: Vec<Vec<char>>)
    ensures
        r@.len() == spec_split(v@, sep).len(),
        forall|k: int| 0 <= k < r@.len() ==> #[trigger] r@[k]@ == spec_split(v@, sep)[k],
{
    let mut out: Vec<Vec<char>> = Vec::new();
    out.push(Vec::new());
    proof {
        assert(v@.subrange(0, 0) =~= Seq::<char>::empty());
    }
    let mut i: usize = 0;
    while i < v.len()
        invariant
            i <= v.len(),
            out@.len() > 0,
            out@.len() == spec_split(v@.subrange(0, i as int), sep).len(),
            forall|k: int|
                0 <= k < out@.len() ==> #[trigger] out@[k]@ == spec_split(
                    v@.subrange(0, i as int),
                    sep,
                )[k],
        decreases v.len() - i,
    {
        let ghost pre = spec_split(v@.subrange(0, i as int), sep);
        let ghost post = spec_split(v@.subrange(0, i as int + 1), sep);
        proof {
            assert(v@.subrange(0, i as int + 1).drop_last() =~= v@.subrange(0, i as int));
        }
        if v[i] == sep {
            let ghost snap = out@;
            out.push(Vec::new());
            proof {
                assert(post == pre.push(Seq::<char>::empty()));
                assert forall|k: int| 0 <= k < out@.len() implies #[trigger] out@[k]@
                    == post[k] by {
                    if k < snap.len() {
                        assert(out@[k] == snap[k]);
                    }
                }
            }
        } else {
            let last = out.len() - 1;
            let ghost snap = out@;
            let mut field = out.remove(last);
            let ghost oldfield = field@;
            field.push(v[i]);
            out.push(field);
            proof {
                assert(post == pre.update(pre.len() - 1, pre.last().push(v@[i as int])));
                assert(out@ =~= snap.update(last as int, out@[last as int]));
                assert forall|k: int| 0 <= k < out@.len() implies #[trigger] out@[k]@
                    == post[k] by {
                    if k < last {
                        assert(out@[k] == snap[k]);
                        assert(post[k] == pre[k]);
                    } else {
                        assert(out@[k]@ == oldfield.push(v@[i as int]));
                        assert(oldfield == snap[last as int]@);
                        assert(pre.last() == pre[last as int]);
                    }
                }
            }
        }
        i = i + 1;
    }
    proof {
        assert(v@.subrange(0, v@.len() as int) =~= v@);
    }
    out
}

/// Two character sequences of equal content.
pub fn chars_equal(a: &Vec<char>, b: &Vec<char>) -> (r: bool)
    ensures
        r == (a@ == b@),
{
    if a.len() != b.len() {
        proof {
            assert(a@.len() != b@.len());
        }
        return false;
    }
    let mut i: usize = 0;
    while i < a.len()
        invariant
            i <= a@.len(),
            a@.len() == b@.len(),
            forall|j: int| 0 <= j < i ==> a@[j] == b@[j],
        decreases a@.len() - i,
    {
        if a[i] != b[i] {
            return false;
        }
        i = i + 1;
    }
    proof {
        assert(a@ =~= b@);
    }
    true
}

} // verus!
