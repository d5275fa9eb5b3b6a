//! Whitespace trimming, splitting text into lines, and reading the
//! one-item-per-line lists of the profile forms.

use vstd::prelude::*;
use crate::numeric::chars_of;
use crate::text::string_from_chars;

verus! {

/// Whether `c` has the Unicode `White_Space` property (the property that
/// `char::is_whitespace` tests): tab, line feed, vertical tab, form feed,
/// carriage return, space, next line, no-break space, ogham space mark, the
/// spaces U+2000 to U+200A, line and paragraph separators, narrow no-break
/// space, medium mathematical space and ideographic space.
pub open spec fn white_space(c: char) -> bool {
    let n = c as u32;
    ||| 0x09 <= n <= 0x0D
    ||| n == 0x20
    ||| n == 0x85
    ||| n == 0xA0
    ||| n == 0x1680
    ||| 0x2000 <= n <= 0x200A
    ||| n == 0x2028
    ||| n == 0x2029
    ||| n == 0x202F
    ||| n == 0x205F
    ||| n == 0x3000
}

/// Whether `c` is white space.
pub fn is_white_space(c: char) -> (r: bool)
    ensures
        r == white_space(c),
{
    match c {
        '\u{9}'..='\u{D}' | ' ' | '\u{85}' | '\u{A0}' | '\u{1680}' | '\u{2000}'..='\u{200A}'
        | '\u{2028}' | '\u{2029}' | '\u{202F}' | '\u{205F}' | '\u{3000}' => true,
        _ => false,
    }
}

/// `s` without its leading whitespace (`str::trim_start`).
pub open spec fn trimmed_start(s: Seq<char>) -> Seq<char>
    decreases s.len(),
{
    if s.len() > 0 && white_space(s[0]) {
        trimmed_start(s.drop_first())
    } else {
        s
    }
}

/// `s` without its trailing whitespace (`str::trim_end`).
pub open spec fn trimmed_end(s: Seq<char>) -> Seq<char>
    decreases s.len(),
{
    if s.len() > 0 && white_space(s.last()) {
        trimmed_end(s.drop_last())
    } else {
        s
    }
}

/// `s` without leading and trailing whitespace (`str::trim`).
pub open spec fn trimmed(s: Seq<char>) -> Seq<char> {
    trimmed_end(trimmed_start(s))
}

/// The pieces of `s` between newlines: one more piece than `s` has newlines.
pub open spec fn split_lines(s: Seq<char>) -> Seq<Seq<char>>
    decreases s.len(),
{
    if s.len() == 0 {
        seq![seq![]]
    } else {
        let before = split_lines(s.drop_last());
        if s.last() == '\n' {
            before.push(seq![])
        } else {
            before.update(before.len() - 1, before.last().push(s.last()))
        }
    }
}

/// The trimmed lines of `lines` that are not empty, in order.
pub open spec fn kept_lines(lines: Seq<Seq<char>>) -> Seq<Seq<char>>
    decreases lines.len(),
{
    if lines.len() == 0 {
        seq![]
    } else {
        let t = trimmed(lines.last());
        if t.len() > 0 {
            kept_lines(lines.drop_last()).push(t)
        } else {
            kept_lines(lines.drop_last())
        }
    }
}

/// The items of a one-item-per-line text: each line trimmed, empty lines dropped.
pub open spec fn pattern_list(text: Seq<char>) -> Seq<Seq<char>> {
    kept_lines(split_lines(text))
}

/// The text `s`, or nothing when it is empty.
pub open spec fn non_empty_text(s: Seq<char>) -> Option<Seq<char>> {
    if s.len() == 0 {
        None
    } else {
        Some(s)
    }
}

/// The texts of `v`.
pub open spec fn texts(v: Seq<String>) -> Seq<Seq<char>> {
    v.map_values(|s: String| s@)
}

proof fn lemma_split_lines_nonempty(s: Seq<char>)
    ensures
        split_lines(s).len() >= 1,
    decreases s.len(),
{
    if s.len() > 0 {
        lemma_split_lines_nonempty(s.drop_last());
    }
}

/// `s` with leading and trailing whitespace removed.
pub fn trim_chars(s: &Vec<char>) -> (r: Vec<char>)
    ensures
        r@ == trimmed(s@),
{
    let n = s.len();
    let mut i: usize = 0;
    assert(s@.subrange(0, n as int) =~= s@);
    while i < n && is_white_space(s[i])
        invariant
            n == s@.len(),
            i <= n,
            trimmed_start(s@.subrange(i as int, n as int)) == trimmed_start(s@),
        decreases n - i,
    {
        assert(s@.subrange(i as int, n as int).drop_first() =~= s@.subrange(i + 1, n as int));
        i = i + 1;
    }
    let ghost front = s@.subrange(i as int, n as int);
    assert(trimmed_start(front) == front);
    let mut j: usize = n;
    while j > i && is_white_space(s[j - 1])
        invariant
            n == s@.len(),
            i <= j <= n,
            front == s@.subrange(i as int, n as int),
            trimmed_end(s@.subrange(i as int, j as int)) == trimmed_end(front),
        decreases j - i,
    {
        assert(s@.subrange(i as int, j as int).drop_last() =~= s@.subrange(i as int, j - 1));
        j = j - 1;
    }
    let mut r: Vec<char> = Vec::new();
    let mut k: usize = i;
    while k < j
        invariant
            i <= k <= j <= n,
            n == s@.len(),
            r@ == s@.subrange(i as int, k as int),
        decreases j - k,
    {
        r.push(s[k]);
        k = k + 1;
        assert(r@ =~= s@.subrange(i as int, k as int));
    }
    r
}

/// The trimmed text of `s` (`str::trim`).
pub fn trim_text(s: &str) -> (r: String)
    ensures
        r@ == trimmed(s@),
{
    let cs = chars_of(s);
    string_from_chars(trim_chars(&cs))
}

/// The text `s`, or `None` when it is empty.
pub fn non_empty(s: &str) -> (r: Option<String>)
    ensures
        match r {
            Some(t) => non_empty_text(s@) == Some(t@),
            None => non_empty_text(s@) is None,
        },
{
    if s.unicode_len() == 0 {
        None
    } else {
        Some(s.to_string())
    }
}

fn push_kept(out: &mut Vec<String>, line: &Vec<char>)
    ensures
        texts(final(out)@) == (if trimmed(line@).len() > 0 {
            texts(old(out)@).push(trimmed(line@))
        } else {
            texts(old(out)@)
        }),
{
    let t = trim_chars(line);
    if t.len() > 0 {
        out.push(string_from_chars(t));
        assert(texts(out@) =~= texts(old(out)@).push(trimmed(line@)));
    }
}

/// The items of a one-item-per-line text, as the profile forms read their
/// pattern lists: each line trimmed, empty lines left out.
pub fn pattern_lines(text: &str) -> (r: Vec<String>)
    ensures
        texts(r@) == pattern_list(text@),
{
    let cs = chars_of(text);
    let n = cs.len();
    let mut out: Vec<String> = Vec::new();
    let mut current: Vec<char> = Vec::new();
    let mut i: usize = 0;
    proof {
        assert(cs@.take(0) =~= Seq::<char>::empty());
    }
    while i < n
        invariant
            n == cs@.len(),
            cs@ == text@,
            i <= n,
            split_lines(cs@.take(i as int)).len() >= 1,
            current@ == split_lines(cs@.take(i as int)).last(),
            texts(out@) == kept_lines(split_lines(cs@.take(i as int)).drop_last()),
        decreases n - i,
    {
        let ghost before = cs@.take(i as int);
        let ghost lines = split_lines(before);
        let c = cs[i];
        assert(cs@.take(i + 1).drop_last() =~= before);
        assert(cs@.take(i + 1).last() == c);
        if c == '\n' {
            push_kept(&mut out, &current);
            current = Vec::new();
            proof {
                let after = split_lines(cs@.take(i + 1));
                assert(after == lines.push(seq![]));
                assert(after.drop_last() =~= lines);
                assert(lines.drop_last().push(lines.last()) =~= lines);
                assert(kept_lines(lines) == (if trimmed(lines.last()).len() > 0 {
                    kept_lines(lines.drop_last()).push(trimmed(lines.last()))
                } else {
                    kept_lines(lines.drop_last())
                }));
                assert(current@ =~= after.last());
            }
        } else {
            current.push(c);
            proof {
                let after = split_lines(cs@.take(i + 1));
                assert(after == lines.update(lines.len() - 1, lines.last().push(c)));
                assert(after.drop_last() =~= lines.drop_last());
            }
        }
        i = i + 1;
        proof {
            lemma_split_lines_nonempty(cs@.take(i as int));
        }
    }
    push_kept(&mut out, &current);
    proof {
        assert(cs@.take(n as int) =~= cs@);
        let lines = split_lines(cs@);
        assert(lines.drop_last().push(lines.last()) =~= lines);
    }
    out
}

} // verus!
