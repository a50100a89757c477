//! How a property becomes a line of calendar text, and whether the
//! `icalendar` crate can fold that line.
//!
//! The crate writes a property as its key, a colon and its value, with
//! four characters of a text value escaped. It then cuts a line of more
//! than 75 bytes into pieces. A cut that would fall into a character
//! steps back to a place between two characters, and on some lines it
//! steps out of its piece, which the crate does not survive. This module
//! follows the cuts and says beforehand whether each of them stays where
//! it belongs.

use vstd::prelude::*;
use vstd::utf8::{
    encode_utf8, encode_utf8_valid_utf8, is_char_boundary, is_char_boundary_start_end_of_seq,
};

verus! {

/// Whether `char::is_whitespace` holds of `c`: whether the character has
/// the Unicode property White_Space.
pub uninterp spec fn white_space(c: char) -> bool;

/// Calls `char::is_whitespace`.
#[verifier::external_body]
fn is_white_space(c: char) -> (white: bool)
    ensures
        white == white_space(c),
{
    c.is_whitespace()
}

/// What is written for one character of a text value: the backslash, the
/// comma and the semicolon get a backslash in front, a line feed becomes
/// a backslash and the letter n, and every other character stays.
pub open spec fn escaped_char(c: char) -> Seq<char> {
    if c == '\\' {
        seq!['\\', '\\']
    } else if c == ',' {
        seq!['\\', ',']
    } else if c == ';' {
        seq!['\\', ';']
    } else if c == '\n' {
        seq!['\\', 'n']
    } else {
        seq![c]
    }
}

/// What is written for a text value: each character escaped, in order.
pub open spec fn escaped(value: Seq<char>) -> Seq<char>
    decreases value.len(),
{
    if value.len() == 0 {
        Seq::empty()
    } else {
        escaped(value.drop_last()) + escaped_char(value.last())
    }
}

/// The line of a property with the written value `value`.
pub open spec fn line_of(key: Seq<char>, value: Seq<char>) -> Seq<char> {
    key + ":"@ + value
}

/// A character that is written as it is wherever it stands: printable
/// ASCII but for the backslash, the comma and the semicolon.
pub open spec fn plain(c: char) -> bool {
    ' ' <= c <= '~' && c != '\\' && c != ',' && c != ';'
}

/// Whether every character of `text` is plain.
pub open spec fn plain_text(text: Seq<char>) -> bool {
    forall|i: int| 0 <= i < text.len() ==> plain(#[trigger] text[i])
}

/// Whether the character with the number `at` of `line` is white space.
/// The folding asks this with the number of a byte, as the crate does.
pub open spec fn space_at(line: Seq<char>, at: int) -> bool {
    0 <= at < line.len() && white_space(line[at])
}

/// Where a cut comes to rest that is tried at the byte `next`: it steps
/// back until it stands between two characters, one byte at a time, and
/// one more byte whenever it meets white space. The start of the line is
/// such a place. The result is -1 where the steps leave the line at its
/// start.
pub open spec fn cut_from(line: Seq<char>, next: int) -> int
    decreases next,
{
    if next < 0 {
        -1
    } else if next == 0 || is_char_boundary(encode_utf8(line), next) {
        next
    } else if !space_at(line, next - 1) {
        cut_from(line, next - 1)
    } else if next >= 2 {
        cut_from(line, next - 2)
    } else {
        -1
    }
}

/// Whether every cut stays inside its piece, from the piece that begins
/// at the byte `pos` on, where the next cut is tried at the byte `next`.
///
/// While more than 75 bytes are left, the cut is tried at `next`, which
/// lies 74 or 75 bytes behind `pos`, or one byte before it where `next`
/// meets white space, and comes to rest as [`cut_from`] says, never
/// behind the place where it was tried. It must rest behind `pos`; the
/// very first cut may also rest at `pos` itself, which is tried once more
/// from one byte less. The next piece begins where the cut rests, and
/// its cut is tried 74 bytes on.
pub open spec fn cuts_stay(line: Seq<char>, pos: int, next: int) -> bool
    decreases encode_utf8(line).len() - pos, next - pos,
{
    if pos < 0 || next > pos + 75 || encode_utf8(line).len() - pos <= 75 {
        true
    } else {
        let from = if space_at(line, next) {
            next - 1
        } else {
            next
        };
        let cut = cut_from(line, from);
        if pos < cut <= from || (cut == pos && next == pos + 75) {
            cuts_stay(line, cut, cut + 74)
        } else {
            false
        }
    }
}

/// Whether `line` can be folded: every cut stays inside its piece.
pub open spec fn fold_stays(line: Seq<char>) -> bool {
    cuts_stay(line, 0, 75)
}

/// A line of at most 75 bytes is not cut at all.
pub proof fn lemma_short_line_stays(line: Seq<char>)
    requires
        encode_utf8(line).len() <= 75,
    ensures
        fold_stays(line),
{
}

/// A cut never comes to rest behind the place where it was tried.
pub proof fn lemma_cut_steps_back(line: Seq<char>, next: int)
    ensures
        -1 <= cut_from(line, next) <= next || next < -1,
    decreases next,
{
    if next > 0 && !is_char_boundary(encode_utf8(line), next) {
        if !space_at(line, next - 1) {
            lemma_cut_steps_back(line, next - 1);
        } else if next >= 2 {
            lemma_cut_steps_back(line, next - 2);
        }
    }
}

/// Plain text is written as it is, even as a text value.
pub proof fn lemma_plain_is_not_escaped(value: Seq<char>)
    requires
        plain_text(value),
    ensures
        escaped(value) == value,
    decreases value.len(),
{
    if value.len() > 0 {
        lemma_plain_is_not_escaped(value.drop_last());
        assert(plain(value.last()));
        assert(escaped(value) =~= value.drop_last() + seq![value.last()]);
        assert(value.drop_last() + seq![value.last()] =~= value);
    } else {
        assert(escaped(value) =~= value);
    }
}

/// Writes `value` as a text value: with each character escaped.
pub fn escape(value: &str) -> (text: String)
    ensures
        text@ == escaped(value@),
{
    let count = value.unicode_len();
    let mut text = String::new();
    let mut i: usize = 0;
    while i < count
        invariant
            i <= count,
            count == value@.len(),
            text@ == escaped(value@.take(i as int)),
        decreases count - i,
    {
        let c = value.get_char(i);
        proof {
            reveal_strlit("\\\\");
            reveal_strlit("\\,");
            reveal_strlit("\\;");
            reveal_strlit("\\n");
            assert(value@.take(i + 1).drop_last() =~= value@.take(i as int));
            assert(value@.take(i + 1).last() == c);
            assert("\\\\"@ =~= seq!['\\', '\\']);
            assert("\\,"@ =~= seq!['\\', ',']);
            assert("\\;"@ =~= seq!['\\', ';']);
            assert("\\n"@ =~= seq!['\\', 'n']);
        }
        if c == '\\' {
            text.append("\\\\");
        } else if c == ',' {
            text.append("\\,");
        } else if c == ';' {
            text.append("\\;");
        } else if c == '\n' {
            text.append("\\n");
        } else {
            let piece = value.substring_char(i, i + 1);
            assert(piece@ =~= seq![c]);
            text.append(piece);
        }
        i = i + 1;
    }
    assert(value@.take(count as int) =~= value@);
    text
}

/// Follows one cut that is tried at the byte `from` to where it comes to
/// rest; `None` where it leaves the line.
fn cut_back(line: &str, chars: usize, from: usize) -> (cut: Option<usize>)
    requires
        chars == line@.len(),
    ensures
        cut matches Some(at) ==> cut_from(line@, from as int) == at && at <= from,
        cut is None ==> cut_from(line@, from as int) == -1,
{
    let mut next = from;
    while !line.is_char_boundary(next)
        invariant
            chars == line@.len(),
            next <= from,
            cut_from(line@, from as int) == cut_from(line@, next as int),
        decreases next,
    {
        proof {
            encode_utf8_valid_utf8(line@);
            is_char_boundary_start_end_of_seq(encode_utf8(line@));
        }
        next = next - 1;
        if next < chars && is_white_space(line.get_char(next)) {
            if next == 0 {
                return None;
            }
            next = next - 1;
        }
    }
    Some(next)
}

/// Whether `line` can be folded: every cut stays inside its piece.
pub fn line_can_be_folded(line: &str) -> (ok: bool)
    ensures
        ok == fold_stays(line@),
{
    let len = line.as_bytes().len();
    let chars = line.unicode_len();
    let mut pos: usize = 0;
    let mut ahead: usize = 75;
    loop
        invariant
            len == encode_utf8(line@).len(),
            chars == line@.len(),
            pos <= len,
            ahead == 74 || ahead == 75,
            fold_stays(line@) == cuts_stay(line@, pos as int, pos + ahead),
        decreases len - pos, ahead,
    {
        if len - pos <= 75 {
            return true;
        }
        let next = pos + ahead;
        let from = if next < chars && is_white_space(line.get_char(next)) {
            next - 1
        } else {
            next
        };
        match cut_back(line, chars, from) {
            Some(cut) => {
                if cut > pos || (cut == pos && ahead == 75) {
                    pos = cut;
                    ahead = 74;
                } else {
                    return false;
                }
            },
            None => {
                return false;
            },
        }
    }
}

/// Whether the property `key` can be written with `value` as a text
/// value: whether its line, with the value escaped, can be folded.
pub fn escaped_line_is_writable(key: &str, value: &str) -> (ok: bool)
    ensures
        ok == fold_stays(line_of(key@, escaped(value@))),
{
    let mut line = String::from_str(key);
    line.append(":");
    line.append(escape(value).as_str());
    line_can_be_folded(line.as_str())
}

/// Whether the property `key` can be written with `value` as it is:
/// whether its line can be folded.
pub fn raw_line_is_writable(key: &str, value: &str) -> (ok: bool)
    ensures
        ok == fold_stays(line_of(key@, value@)),
{
    let mut line = String::from_str(key);
    line.append(":");
    line.append(value);
    line_can_be_folded(line.as_str())
}

} // verus!
