//! Text-extraction rules of the provider resolver: recovering a line number
//! and, for some providers, a file path out of the raw display line.
//!
//! Each provider's line format gets its own little grammar here, stated as
//! spec functions over character sequences, and an executable parser proved
//! against it. A parse failure is reported, never defaulted away.

use vstd::prelude::*;
use crate::text::{digit_run_end, digits_val, find_digit_run_end, find_from, find_char_from,
    find_nonspace, is_digit, is_digit_char, lemma_digit_run_end_props, lemma_find_from_props,
    parse_usize, skip_spaces};

verus! {

/// The display line with its two leading icon characters removed; the empty
/// sequence when the line is shorter than the icon prefix.
pub open spec fn stripped2(s: Seq<char>) -> Seq<char> {
    if s.len() >= 2 {
        s.skip(2)
    } else {
        Seq::empty()
    }
}

/// Removes the fixed-width icon glyph (one glyph, one space) from the front
/// of a display line. A line shorter than the prefix becomes empty rather
/// than a fault.
pub fn strip_leading_icon(line: &str) -> (r: String)
    ensures
        r@ == stripped2(line@),
{
    let len = line.unicode_len();
    if len >= 2 {
        let sub = line.substring_char(2, len);
        let r = String::from_str(sub);
        proof {
            assert(line@.subrange(2, line@.len() as int) =~= stripped2(line@));
        }
        r
    } else {
        String::new()
    }
}

/// Joining a working directory and a relative path: an absolute right-hand
/// side stands alone, otherwise the two are joined with exactly one
/// separator.
pub open spec fn join_spec(cwd: Seq<char>, rel: Seq<char>) -> Seq<char> {
    if rel.len() > 0 && rel[0] == '/' {
        rel
    } else if cwd.len() == 0 {
        rel
    } else if cwd[cwd.len() - 1] == '/' {
        cwd + rel
    } else {
        cwd + seq!['/'] + rel
    }
}

pub fn join_path(cwd: &str, rel: &str) -> (r: String)
    ensures
        r@ == join_spec(cwd@, rel@),
{
    proof {
        reveal_strlit("/");
    }
    let rel_len = rel.unicode_len();
    if rel_len > 0 && rel.get_char(0) == '/' {
        return String::from_str(rel);
    }
    let cwd_len = cwd.unicode_len();
    if cwd_len == 0 {
        return String::from_str(rel);
    }
    let mut r = String::from_str(cwd);
    if cwd.get_char(cwd_len - 1) != '/' {
        r.append("/");
    }
    r.append(rel);
    proof {
        assert(r@ =~= join_spec(cwd@, rel@));
    }
    r
}

/// Joining adds nothing of its own: the result is the raw path itself when
/// that is absolute, and otherwise the working directory extended by at most
/// one separator and the raw path — never any other segment.
pub proof fn lemma_join_adds_nothing(cwd: Seq<char>, rel: Seq<char>)
    ensures
        join_spec(cwd, rel) == rel || join_spec(cwd, rel) == cwd + rel || join_spec(cwd, rel)
            == cwd + seq!['/'] + rel,
{
}

/// A buffer-lines display line: optional leading spaces, then the line
/// number, then a space before the content.
pub open spec fn blines_start(s: Seq<char>) -> int {
    skip_spaces(s, 0)
}

pub open spec fn blines_end(s: Seq<char>) -> int {
    digit_run_end(s, blines_start(s))
}

pub open spec fn blines_match(s: Seq<char>) -> bool {
    blines_end(s) > blines_start(s) && blines_end(s) < s.len() && s[blines_end(s)] == ' '
}

pub open spec fn blines_lnum_val(s: Seq<char>) -> nat {
    digits_val(s.subrange(blines_start(s), blines_end(s)))
}

/// Parses the leading line-number token of a buffer-lines display line.
/// Returns `None` exactly when the line does not carry such a token, or the
/// number does not fit in `usize`.
pub fn extract_blines_lnum(line: &str) -> (r: Option<usize>)
    ensures
        match r {
            Some(n) => blines_match(line@) && n as nat == blines_lnum_val(line@),
            None => !(blines_match(line@) && blines_lnum_val(line@) <= usize::MAX),
        },
{
    let b = find_nonspace(line, 0);
    let e = find_digit_run_end(line, b);
    proof {
        lemma_digit_run_end_props(line@, b as int);
    }
    if e > b && e < line.unicode_len() && line.get_char(e) == ' ' {
        parse_usize(line, b, e)
    } else {
        None
    }
}

/// Buffer-tag lines carry their line number as the digits after a colon,
/// e.g. `name:42 [kind]`. The anchor is the last colon directly followed by
/// a digit; searching below `from`, `-1` when there is none.
pub open spec fn tags_anchor_before(s: Seq<char>, from: int) -> int
    decreases from,
    when 0 <= from <= s.len()
{
    if from <= 0 {
        -1
    } else if s[from - 1] == ':' && from < s.len() && is_digit(s[from]) {
        from - 1
    } else {
        tags_anchor_before(s, from - 1)
    }
}

pub open spec fn tags_anchor(s: Seq<char>) -> int {
    tags_anchor_before(s, s.len() as int)
}

pub open spec fn tags_match(s: Seq<char>) -> bool {
    tags_anchor(s) >= 0
}

pub open spec fn tags_end(s: Seq<char>) -> int {
    digit_run_end(s, tags_anchor(s) + 1)
}

pub open spec fn tags_lnum_val(s: Seq<char>) -> nat {
    digits_val(s.subrange(tags_anchor(s) + 1, tags_end(s)))
}

/// Parses the line-number locator of a buffer-tag line: the maximal digit
/// run after the last colon that is directly followed by a digit. `None`
/// exactly when no such locator exists or the number does not fit in
/// `usize`.
pub fn extract_buf_tags_lnum(line: &str) -> (r: Option<usize>)
    ensures
        match r {
            Some(n) => tags_match(line@) && n as nat == tags_lnum_val(line@),
            None => !(tags_match(line@) && tags_lnum_val(line@) <= usize::MAX),
        },
{
    let len = line.unicode_len();
    let mut i: usize = len;
    while i > 0
        invariant
            i <= len,
            len == line@.len(),
            tags_anchor(line@) == tags_anchor_before(line@, i as int),
        decreases i,
    {
        if line.get_char(i - 1) == ':' && i < len && is_digit_char(line.get_char(i)) {
            let e = find_digit_run_end(line, i);
            proof {
                lemma_digit_run_end_props(line@, i as int);
            }
            return parse_usize(line, i, e);
        }
        i = i - 1;
    }
    None
}

/// Project-tag lines interleave a symbol, its line number and a relative
/// path: `name:lnum [kind@path]`. The line number follows the first colon,
/// the path sits between the `@` and the closing `]`.
pub open spec fn proj_colon(s: Seq<char>) -> int {
    find_from(s, 0, ':')
}

pub open spec fn proj_lnum_end(s: Seq<char>) -> int {
    digit_run_end(s, proj_colon(s) + 1)
}

pub open spec fn proj_at(s: Seq<char>) -> int {
    find_from(s, proj_lnum_end(s), '@')
}

pub open spec fn proj_close(s: Seq<char>) -> int {
    find_from(s, proj_at(s) + 1, ']')
}

pub open spec fn proj_match(s: Seq<char>) -> bool {
    &&& proj_colon(s) < s.len()
    &&& proj_lnum_end(s) > proj_colon(s) + 1
    &&& proj_at(s) < s.len()
    &&& proj_close(s) < s.len()
}

pub open spec fn proj_lnum_val(s: Seq<char>) -> nat {
    digits_val(s.subrange(proj_colon(s) + 1, proj_lnum_end(s)))
}

pub open spec fn proj_path(s: Seq<char>) -> Seq<char> {
    s.subrange(proj_at(s) + 1, proj_close(s))
}

/// Parses a project-tag line into its line number and relative path. `None`
/// exactly when the line does not fit the format or the number does not fit
/// in `usize`.
pub fn extract_proj_tags(line: &str) -> (r: Option<(usize, String)>)
    ensures
        match r {
            Some(t) => {
                &&& proj_match(line@)
                &&& t.0 as nat == proj_lnum_val(line@)
                &&& t.1@ == proj_path(line@)
            },
            None => !(proj_match(line@) && proj_lnum_val(line@) <= usize::MAX),
        },
{
    let len = line.unicode_len();
    let a = find_char_from(line, 0, ':');
    proof {
        lemma_find_from_props(line@, 0, ':');
    }
    if a >= len {
        return None;
    }
    let e = find_digit_run_end(line, a + 1);
    proof {
        lemma_digit_run_end_props(line@, a + 1 as int);
    }
    if e <= a + 1 {
        return None;
    }
    let p = find_char_from(line, e, '@');
    proof {
        lemma_find_from_props(line@, e as int, '@');
    }
    if p >= len {
        return None;
    }
    let q = find_char_from(line, p + 1, ']');
    proof {
        lemma_find_from_props(line@, p + 1 as int, ']');
    }
    if q >= len {
        return None;
    }
    let lnum = match parse_usize(line, a + 1, e) {
        Some(n) => n,
        None => {
            return None;
        },
    };
    let path = String::from_str(line.substring_char(p + 1, q));
    Some((lnum, path))
}

/// A grep line is `path:line:column:content`, where the path may itself hold
/// colons: the split point is the last position where a colon is followed by
/// two colon-delimited digit fields.
pub open spec fn grep_match_at(s: Seq<char>, a: int) -> bool {
    &&& 0 <= a
    &&& a < s.len()
    &&& s[a] == ':'
    &&& digit_run_end(s, a + 1) > a + 1
    &&& digit_run_end(s, a + 1) < s.len()
    &&& s[digit_run_end(s, a + 1)] == ':'
    &&& digit_run_end(s, digit_run_end(s, a + 1) + 1) > digit_run_end(s, a + 1) + 1
    &&& digit_run_end(s, digit_run_end(s, a + 1) + 1) < s.len()
    &&& s[digit_run_end(s, digit_run_end(s, a + 1) + 1)] == ':'
}

pub open spec fn grep_anchor_before(s: Seq<char>, from: int) -> int
    decreases from,
    when 0 <= from <= s.len()
{
    if from <= 0 {
        -1
    } else if grep_match_at(s, from - 1) {
        from - 1
    } else {
        grep_anchor_before(s, from - 1)
    }
}

pub open spec fn grep_anchor(s: Seq<char>) -> int {
    grep_anchor_before(s, s.len() as int)
}

pub open spec fn grep_match(s: Seq<char>) -> bool {
    grep_anchor(s) >= 0
}

pub open spec fn grep_lnum_end(s: Seq<char>) -> int {
    digit_run_end(s, grep_anchor(s) + 1)
}

pub open spec fn grep_col_end(s: Seq<char>) -> int {
    digit_run_end(s, grep_lnum_end(s) + 1)
}

pub open spec fn grep_path(s: Seq<char>) -> Seq<char> {
    s.subrange(0, grep_anchor(s))
}

pub open spec fn grep_lnum_val(s: Seq<char>) -> nat {
    digits_val(s.subrange(grep_anchor(s) + 1, grep_lnum_end(s)))
}

pub open spec fn grep_col_val(s: Seq<char>) -> nat {
    digits_val(s.subrange(grep_lnum_end(s) + 1, grep_col_end(s)))
}

fn grep_hit(line: &str, a: usize) -> (r: bool)
    requires
        a < line@.len(),
    ensures
        r == grep_match_at(line@, a as int),
{
    let len = line.unicode_len();
    if line.get_char(a) != ':' {
        return false;
    }
    let b = find_digit_run_end(line, a + 1);
    if !(b > a + 1 && b < len) {
        return false;
    }
    if line.get_char(b) != ':' {
        return false;
    }
    let c = find_digit_run_end(line, b + 1);
    if !(c > b + 1 && c < len) {
        return false;
    }
    line.get_char(c) == ':'
}

/// Parses a grep line into path, line and column. Everything before the
/// split point is the path, so a path may itself contain colons; the split
/// point is the rightmost candidate. `None` exactly when the line has no
/// candidate split or a number does not fit in `usize`.
pub fn extract_grep_position(line: &str) -> (r: Option<(String, usize, usize)>)
    ensures
        match r {
            Some(t) => {
                &&& grep_match(line@)
                &&& t.0@ == grep_path(line@)
                &&& t.1 as nat == grep_lnum_val(line@)
                &&& t.2 as nat == grep_col_val(line@)
            },
            None => !(grep_match(line@) && grep_lnum_val(line@) <= usize::MAX && grep_col_val(
                line@,
            ) <= usize::MAX),
        },
{
    let len = line.unicode_len();
    let mut i: usize = len;
    while i > 0
        invariant
            i <= len,
            len == line@.len(),
            grep_anchor(line@) == grep_anchor_before(line@, i as int),
        decreases i,
    {
        if grep_hit(line, i - 1) {
            let a = i - 1;
            let b = find_digit_run_end(line, a + 1);
            proof {
                lemma_digit_run_end_props(line@, a + 1 as int);
            }
            let c = find_digit_run_end(line, b + 1);
            proof {
                lemma_digit_run_end_props(line@, b + 1 as int);
            }
            let lnum = match parse_usize(line, a + 1, b) {
                Some(n) => n,
                None => {
                    return None;
                },
            };
            let col = match parse_usize(line, b + 1, c) {
                Some(n) => n,
                None => {
                    return None;
                },
            };
            let path = String::from_str(line.substring_char(0, a));
            return Some((path, lnum, col));
        }
        i = i - 1;
    }
    None
}

} // verus!
