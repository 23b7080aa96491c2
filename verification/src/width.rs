//! Display widths of characters and strings in terminal columns, as the
//! `unicode-width` crate computes them.
use vstd::prelude::*;

use unicode_width::{UnicodeWidthChar, UnicodeWidthStr};

use crate::text::spaces;

verus! {

/// The column width that `unicode-width`'s tables give a character from U+00A0 on.
pub uninterp spec fn table_width(c: char) -> usize;

/// The display width of a whole text as `UnicodeWidthStr::width` computes it
/// (it looks at neighbouring characters, so it is not a plain sum).
pub uninterp spec fn str_columns(s: Seq<char>) -> usize;

/// Whether every character of `s` is printable ASCII (U+0020 to U+007E).
pub open spec fn ascii_text(s: Seq<char>) -> bool {
    forall|i: int| 0 <= i < s.len() ==> ' ' <= #[trigger] s[i] && s[i] < '\u{7f}'
}

/// The display width of one character (`UnicodeWidthChar::width`): one column for
/// printable ASCII, none for control characters, the table value otherwise.
pub open spec fn char_columns(c: char) -> Option<usize> {
    if '\u{7f}' > c {
        if c >= ' ' {
            Some(1)
        } else {
            None
        }
    } else if c >= '\u{a0}' {
        Some(table_width(c))
    } else {
        None
    }
}

/// `UnicodeWidthChar::width`: `Some(1)` for printable ASCII, `None` for the
/// control codes below U+0020 and from U+007F up to U+00A0, and the table value
/// for every other character; the crate's tables hold no width above 3.
#[verifier::external_body]
pub(crate) fn char_width(c: char) -> (r: Option<usize>)
    ensures
        (' ' <= c && '\u{7f}' > c) ==> r == Some(1usize),
        (' ' > c || ('\u{7f}' <= c && '\u{a0}' > c)) ==> r is None,
        c >= '\u{a0}' ==> r == Some(table_width(c)),
        r matches Some(w) ==> w <= 3,
{
    UnicodeWidthChar::width(c)
}

/// `UnicodeWidthStr::width`. Besides naming the result, the contract records what
/// the crate's `str_width` shows: it folds from the last character backwards, and a
/// printable ASCII character counts one column and hands on no context to the
/// character before it. So a text of printable ASCII is as wide as it is long,
/// and appending `k` spaces adds exactly `k`.
#[verifier::external_body]
pub(crate) fn str_width(s: &str) -> (r: usize)
    ensures
        r == str_columns(s@),
        ascii_text(s@) ==> r == s@.len(),
        forall|k: nat| r + k <= usize::MAX ==> #[trigger] str_columns(s@ + spaces(k)) == r + k,
{
    UnicodeWidthStr::width(s)
}

/// What `char_width` states of its result is exactly `char_columns`.
pub proof fn lemma_char_width_spec(c: char, r: Option<usize>)
    requires
        (' ' <= c && '\u{7f}' > c) ==> r == Some(1usize),
        (' ' > c || ('\u{7f}' <= c && '\u{a0}' > c)) ==> r is None,
        c >= '\u{a0}' ==> r == Some(table_width(c)),
    ensures
        r == char_columns(c),
{
}

/// The width of a character (the `char_width` result, one column where there is
/// none, and at least one column).
pub open spec fn cell_width(c: char) -> usize {
    let w = match char_columns(c) {
        Some(w) => w,
        None => 1,
    };
    if w < 1 {
        1
    } else {
        w
    }
}

/// `char_width(c).unwrap_or(1)` as a plain column count.
pub open spec fn columns_or_one(c: char) -> usize {
    match char_columns(c) {
        Some(w) => w,
        None => 1,
    }
}

} // verus!
