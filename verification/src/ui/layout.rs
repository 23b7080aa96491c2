//! Column-exact text for the track list: padding and truncating to a display
//! width, the playlist position badge, and the scrolling marquee.
use vstd::prelude::*;

use crate::text::{
    chars_of, decimal, push_char, push_decimal, push_spaces, spaces, string_from_chars,
};
use crate::width::{
    ascii_text, cell_width, char_columns, char_width, columns_or_one, lemma_char_width_spec, str_columns,
    str_width,
};

verus! {

/// Width in columns of the playlist position badge.
pub const BADGE_WIDTH: usize = 6;

/// `p` followed by as many spaces as it takes to reach `width` columns.
pub open spec fn pad_to(p: Seq<char>, width: nat) -> Seq<char> {
    if str_columns(p) < width {
        p + spaces((width - str_columns(p)) as nat)
    } else {
        p
    }
}

/// The longest prefix of `s` whose characters, at `char_width(c).unwrap_or(1)`
/// columns each, fit in `budget` columns.
pub open spec fn fit_prefix(s: Seq<char>, budget: int) -> Seq<char>
    decreases s.len(),
{
    if s.len() == 0 {
        s
    } else if columns_or_one(s[0]) > budget {
        Seq::empty()
    } else {
        seq![s[0]] + fit_prefix(s.drop_first(), budget - columns_or_one(s[0]))
    }
}

/// `s` laid out in exactly `width` columns where it is narrower (padded with
/// spaces), and cut to the characters that fit where it is not.
pub open spec fn padded_display(s: Seq<char>, width: nat) -> Seq<char> {
    if str_columns(s) >= width {
        pad_to(fit_prefix(s, width as int), width)
    } else {
        s + spaces((width - str_columns(s)) as nat)
    }
}

/// A cut of printable ASCII text is printable ASCII and no longer than the budget.
proof fn lemma_fit_prefix_ascii(s: Seq<char>, budget: int)
    requires
        ascii_text(s),
        budget >= 0,
    ensures
        ascii_text(fit_prefix(s, budget)),
        fit_prefix(s, budget).len() <= budget,
    decreases s.len(),
{
    if s.len() > 0 && columns_or_one(s[0]) <= budget {
        assert(' ' <= s[0] && s[0] < '\u{7f}');
        assert(columns_or_one(s[0]) == 1);
        let rest = s.drop_first();
        assert(ascii_text(rest)) by {
            assert forall|i: int| 0 <= i < rest.len() implies ' ' <= #[trigger] rest[i] && rest[i]
                < '\u{7f}' by {
                assert(rest[i] == s[i + 1]);
            }
        }
        lemma_fit_prefix_ascii(rest, budget - 1);
        let f = fit_prefix(s, budget);
        assert(f == seq![s[0]] + fit_prefix(rest, budget - 1));
        assert forall|i: int| 0 <= i < f.len() implies ' ' <= #[trigger] f[i] && f[i] < '\u{7f}' by {
            if i > 0 {
                assert(f[i] == fit_prefix(rest, budget - 1)[i - 1]);
            }
        }
    }
}

/// Appends spaces to `out` until its display width reaches `width`.
fn pad_with_spaces(out: &mut String, width: usize)
    ensures
        final(out)@ == pad_to(old(out)@, width as nat),
        str_columns(final(out)@) >= width,
        str_columns(old(out)@) <= width ==> str_columns(final(out)@) == width,
        ascii_text(old(out)@) ==> str_columns(old(out)@) == old(out)@.len(),
{
    let ghost p = out@;
    let ghost mut j: nat = 0;
    assert(p + spaces(0) =~= p);
    loop
        invariant_except_break
            out@ == p + spaces(j),
            str_columns(out@) == str_columns(p) + j,
            j > 0 ==> str_columns(p) + j <= width,
            j > 0 ==> (ascii_text(p) ==> str_columns(p) == p.len()),
        ensures
            out@ == p + spaces(j),
            str_columns(out@) == str_columns(p) + j,
            str_columns(p) + j >= width,
            j > 0 ==> str_columns(p) + j == width,
            ascii_text(p) ==> str_columns(p) == p.len(),
        decreases width - str_columns(out@),
    {
        let cur = str_width(out.as_str());
        proof {
            if j == 0 {
                assert(out@ =~= p);
            }
        }
        if cur >= width {
            break;
        }
        let ghost before = out@;
        push_char(out, ' ');
        proof {
            assert(before.push(' ') =~= before + spaces(1));
            assert(str_columns(before + spaces(1)) == cur + 1);
            j = j + 1;
            assert(p + spaces(j) =~= before + spaces(1));
        }
    }
    proof {
        if str_columns(p) < width {
            assert(j > 0);
        } else {
            assert(j == 0);
            assert(p + spaces(0) =~= p);
        }
    }
}

/// Pads `s` with spaces or cuts it so that it takes `width` display columns.
/// Full-width characters count two columns, which `{:<N}` formatting ignores.
/// Printable ASCII text comes out exactly `width` columns wide.
pub fn pad_display(s: &str, width: usize) -> (r: String)
    ensures
        r@ == padded_display(s@, width as nat),
        str_columns(r@) >= width,
        str_columns(s@) < width ==> str_columns(r@) == width,
        str_columns(fit_prefix(s@, width as int)) <= width ==> str_columns(r@) == width,
        ascii_text(s@) ==> str_columns(r@) == width,
{
    let disp = str_width(s);
    if disp >= width {
        let cs = chars_of(s);
        let n = cs.len();
        let mut out = String::new();
        let mut w: usize = 0;
        let mut i: usize = 0;
        assert(cs@.subrange(0, n as int) =~= s@);
        while i < n
            invariant_except_break
                i <= n,
                n == cs@.len(),
                cs@ == s@,
                w <= width,
                out@ == s@.subrange(0, i as int),
                fit_prefix(s@, width as int) == out@ + fit_prefix(
                    s@.subrange(i as int, n as int),
                    width - w,
                ),
            ensures
                out@ == fit_prefix(s@, width as int),
            decreases n - i,
        {
            let c = cs[i];
            let cwo = char_width(c);
            proof {
                lemma_char_width_spec(c, cwo);
            }
            let cw = match cwo {
                Some(x) => x,
                None => 1,
            };
            let ghost rest = s@.subrange(i as int, n as int);
            assert(rest[0] == c);
            if cw > width - w {
                assert(fit_prefix(rest, width - w) =~= Seq::<char>::empty());
                assert(out@ + Seq::<char>::empty() =~= out@);
                break;
            }
            push_char(&mut out, c);
            w = w + cw;
            i = i + 1;
            proof {
                assert(rest.drop_first() =~= s@.subrange(i as int, n as int));
                assert(out@ =~= s@.subrange(0, i as int));
                assert(fit_prefix(rest, width - (w - cw)) == seq![c] + fit_prefix(
                    rest.drop_first(),
                    width - w,
                ));
                assert(out@ + fit_prefix(s@.subrange(i as int, n as int), width - w) =~= (
                out@.drop_last()) + (seq![c] + fit_prefix(rest.drop_first(), width - w)));
            }
        }
        proof {
            if i == n {
                assert(s@.subrange(n as int, n as int) =~= Seq::<char>::empty());
                assert(out@ + Seq::<char>::empty() =~= out@);
            }
        }
        proof {
            if ascii_text(s@) {
                lemma_fit_prefix_ascii(s@, width as int);
            }
        }
        pad_with_spaces(&mut out, width);
        out
    } else {
        let mut out = s.to_owned();
        let ghost k = (width - disp) as nat;
        push_spaces(&mut out, width - disp);
        assert(str_columns(s@ + spaces(k)) == disp + k);
        out
    }
}

/// The badge text before it is fitted to the badge width: `[p]`, `[p,q]` for two
/// one-digit positions, and `[p+n]` (first position and how many more) otherwise.
pub open spec fn badge_core(ps: Seq<usize>) -> Seq<char> {
    if ps.len() == 1 {
        seq!['['] + decimal(ps[0] as nat) + seq![']']
    } else if ps.len() == 2 && ps[0] < 10 && ps[1] < 10 {
        seq!['['] + decimal(ps[0] as nat) + seq![','] + decimal(ps[1] as nat) + seq![']']
    } else {
        seq!['['] + decimal(ps[0] as nat) + seq!['+'] + decimal((ps.len() - 1) as nat) + seq![
            ']',
        ]
    }
}

/// The first `n` characters of `s` (all of them when it is shorter).
pub open spec fn first_chars(s: Seq<char>, n: nat) -> Seq<char> {
    if s.len() <= n {
        s
    } else {
        s.take(n as int)
    }
}

/// The badge for a track at the given 1-based playlist positions: blank when it
/// is in no position, otherwise `badge_core` cut and padded to `BADGE_WIDTH`
/// characters.
pub open spec fn queue_badge(ps: Seq<usize>) -> Seq<char> {
    if ps.len() == 0 {
        spaces(6)
    } else {
        let t = first_chars(badge_core(ps), 6);
        t + spaces((6 - t.len()) as nat)
    }
}

/// Whether `c` is printable ASCII (one display column).
pub open spec fn is_printable_ascii(c: char) -> bool {
    ' ' <= c && c <= '~'
}

proof fn lemma_decimal_printable(n: nat)
    ensures
        forall|i: int|
            0 <= i < decimal(n).len() ==> is_printable_ascii(#[trigger] decimal(n)[i]),
{
    crate::text::lemma_decimal_digits(n);
    assert forall|i: int| 0 <= i < decimal(n).len() implies is_printable_ascii(
        #[trigger] decimal(n)[i],
    ) by {
        assert(crate::text::is_digit(decimal(n)[i]));
    }
}

/// Formats the playlist positions of one track as a fixed-width badge.
pub fn format_queue_badge(positions: &[usize]) -> (r: String)
    ensures
        r@ == queue_badge(positions@),
        r@.len() == BADGE_WIDTH,
        forall|i: int| 0 <= i < r@.len() ==> is_printable_ascii(#[trigger] r@[i]),
{
    let n = positions.len();
    if n == 0 {
        let mut out = String::new();
        push_spaces(&mut out, BADGE_WIDTH);
        assert(Seq::<char>::empty() + spaces(6) =~= spaces(6));
        return out;
    }
    let mut core = String::new();
    push_char(&mut core, '[');
    push_decimal(&mut core, positions[0] as u64);
    if n == 1 {
        push_char(&mut core, ']');
    } else if n == 2 && positions[0] < 10 && positions[1] < 10 {
        push_char(&mut core, ',');
        push_decimal(&mut core, positions[1] as u64);
        push_char(&mut core, ']');
    } else {
        push_char(&mut core, '+');
        push_decimal(&mut core, (n - 1) as u64);
        push_char(&mut core, ']');
    }
    assert(core@ =~= badge_core(positions@));
    proof {
        lemma_decimal_printable(positions@[0] as nat);
        if n == 2 {
            lemma_decimal_printable(positions@[1] as nat);
        }
        lemma_decimal_printable((n - 1) as nat);
        assert forall|i: int| 0 <= i < core@.len() implies is_printable_ascii(
            #[trigger] core@[i],
        ) by {
            let d0 = decimal(positions@[0] as nat);
            if i >= 1 && i < 1 + d0.len() {
                assert(core@[i] == d0[i - 1]);
            } else if n == 2 && positions@[0] < 10 && positions@[1] < 10 {
                let d1 = decimal(positions@[1] as nat);
                if i >= 2 + d0.len() && i < 2 + d0.len() + d1.len() {
                    assert(core@[i] == d1[i - 2 - d0.len()]);
                }
            } else if n != 1 {
                let d1 = decimal((n - 1) as nat);
                if i >= 2 + d0.len() && i < 2 + d0.len() + d1.len() {
                    assert(core@[i] == d1[i - 2 - d0.len()]);
                }
            }
        }
    }
    let cs = chars_of(core.as_str());
    let mut out = String::new();
    let mut i: usize = 0;
    while i < cs.len() && i < BADGE_WIDTH
        invariant
            i <= cs@.len(),
            i <= 6,
            cs@ == core@,
            out@ == cs@.take(i as int),
        decreases 6 - i,
    {
        push_char(&mut out, cs[i]);
        i = i + 1;
        assert(out@ =~= cs@.take(i as int));
    }
    let ghost t = out@;
    assert(t =~= first_chars(core@, 6));
    push_spaces(&mut out, BADGE_WIDTH - i);
    proof {
        assert forall|k: int| 0 <= k < out@.len() implies is_printable_ascii(#[trigger] out@[k]) by {
            if k < t.len() {
                assert(out@[k] == core@[k]);
            } else {
                assert(out@[k] == ' ');
            }
        }
    }
    out
}

/// Sum of the cell widths of `s`.
pub open spec fn cell_sum(s: Seq<char>) -> nat
    decreases s.len(),
{
    if s.len() == 0 {
        0
    } else {
        cell_sum(s.drop_last()) + (cell_width(s.last()) as nat)
    }
}

/// The column table of `s`: for each character, the column where it starts, the
/// character and its cell width.
pub open spec fn col_table(s: Seq<char>) -> Seq<(usize, char, usize)> {
    Seq::new(s.len(), |i: int| (cell_sum(s.take(i)) as usize, s[i], cell_width(s[i])))
}

/// A column table that the marquee can walk: every cell at least one column
/// wide and ending within the total width.
pub open spec fn table_ok(t: Seq<(usize, char, usize)>, total: usize) -> bool {
    forall|i: int| 0 <= i < t.len() ==> #[trigger] t[i].2 >= 1 && t[i].0 + t[i].2 <= total
}

/// Builds the column table of `s` and its total display width.
pub fn build_col_table(s: &str) -> (r: (Vec<(usize, char, usize)>, usize))
    requires
        3 * s@.len() <= usize::MAX,
    ensures
        r.0@ == col_table(s@),
        r.1 == cell_sum(s@),
        r.1 <= 3 * s@.len(),
        table_ok(r.0@, r.1),
{
    let cs = chars_of(s);
    let n = cs.len();
    let mut table: Vec<(usize, char, usize)> = Vec::new();
    let mut acc: usize = 0;
    let mut i: usize = 0;
    while i < n
        invariant
            i <= n,
            n == cs@.len(),
            cs@ == s@,
            3 * n <= usize::MAX,
            acc == cell_sum(s@.take(i as int)),
            acc <= 3 * i,
            table@.len() == i,
            forall|j: int|
                0 <= j < i ==> #[trigger] table@[j] == (
                    cell_sum(s@.take(j)) as usize,
                    s@[j],
                    cell_width(s@[j]),
                ),
            forall|j: int| 0 <= j < i ==> #[trigger] table@[j].2 >= 1 && table@[j].0 + table@[j].2 <= acc,
        decreases n - i,
    {
        let ch = cs[i];
        let wo = char_width(ch);
        proof {
            lemma_char_width_spec(ch, wo);
        }
        let w0 = match wo {
            Some(x) => x,
            None => 1,
        };
        let w = if w0 < 1 {
            1
        } else {
            w0
        };
        assert(w == cell_width(ch));
        table.push((acc, ch, w));
        proof {
            assert(s@.take(i + 1).drop_last() =~= s@.take(i as int));
            assert(s@.take(i + 1).last() == ch);
        }
        acc = acc + w;
        i = i + 1;
    }
    assert(s@.take(n as int) =~= s@);
    assert(table@ =~= col_table(s@));
    (table, acc)
}

/// The first table entry, from `i` on, whose cell ends after column `pos`.
pub open spec fn find_entry(t: Seq<(usize, char, usize)>, pos: int, i: int) -> Option<int>
    decreases t.len() - i,
{
    if i < 0 || i >= t.len() {
        None
    } else if t[i].0 + t[i].2 > pos {
        Some(i)
    } else {
        find_entry(t, pos, i + 1)
    }
}

fn find_from(t: &Vec<(usize, char, usize)>, total: usize, pos: usize, i: usize) -> (r: Option<
    usize,
>)
    requires
        table_ok(t@, total),
        i <= t@.len(),
    ensures
        match r {
            Some(k) => find_entry(t@, pos as int, i as int) == Some(k as int) && k < t@.len(),
            None => find_entry(t@, pos as int, i as int) is None,
        },
    decreases t@.len() - i,
{
    if i >= t.len() {
        None
    } else if t[i].0 + t[i].2 > pos {
        Some(i)
    } else {
        find_from(t, total, pos, i + 1)
    }
}

/// The characters the marquee shows, from column `col` on, having already used
/// `out` of `maxw` columns. The text repeats every `total + 2` columns (two blank
/// columns after the text). Column by column: a blank column shows a space; the
/// first column of a character shows the character if it still fits, and ends the
/// window if not; a column in the middle of a wide character shows one space and
/// moves to the column after that character. The walk is stated over any column
/// table, not only one that `build_col_table` made, because `marquee_from_table`
/// takes any.
pub open spec fn marquee_cols(
    t: Seq<(usize, char, usize)>,
    total: int,
    col: int,
    out: int,
    maxw: int,
) -> Seq<char>
    decreases maxw - out,
{
    if out >= maxw {
        Seq::empty()
    } else {
        let pos = col % (total + 2);
        if pos >= total {
            seq![' '] + marquee_cols(t, total, col + 1, out + 1, maxw)
        } else {
            let ci = match find_entry(t, pos, 0) {
                Some(k) => k,
                None => 0,
            };
            let w: int = match find_entry(t, pos, 0) {
                Some(k) => t[k].2 as int,
                None => 1,
            };
            let c_start = t[ci].0 as int;
            if pos > c_start {
                seq![' '] + marquee_cols(t, total, c_start + w, out + 1, maxw)
            } else if out + w > maxw || w < 1 {
                Seq::empty()
            } else {
                seq![t[ci].1] + marquee_cols(t, total, col + w, out + w, maxw)
            }
        }
    }
}

/// Whether every character of a column table is printable ASCII.
pub open spec fn table_ascii(t: Seq<(usize, char, usize)>) -> bool {
    forall|k: int| 0 <= k < t.len() ==> ' ' <= #[trigger] t[k].1 && t[k].1 < '\u{7f}'
}

proof fn lemma_find_entry_range(t: Seq<(usize, char, usize)>, pos: int, i: int)
    ensures
        find_entry(t, pos, i) matches Some(k) ==> 0 <= k < t.len(),
    decreases t.len() - i,
{
    if 0 <= i < t.len() && !(t[i].0 + t[i].2 > pos) {
        lemma_find_entry_range(t, pos, i + 1);
    }
}

proof fn lemma_ascii_cons(c: char, rest: Seq<char>)
    requires
        ' ' <= c && c < '\u{7f}',
        ascii_text(rest),
    ensures
        ascii_text(seq![c] + rest),
{
    let u = seq![c] + rest;
    assert forall|i: int| 0 <= i < u.len() implies ' ' <= #[trigger] u[i] && u[i] < '\u{7f}' by {
        if i > 0 {
            assert(u[i] == rest[i - 1]);
        }
    }
}

/// A marquee window of printable ASCII text is printable ASCII and takes at most
/// the columns that are left: every character shown uses at least one column.
proof fn lemma_marquee_cols_ascii(t: Seq<(usize, char, usize)>, total: int, col: int, out: int, maxw: int)
    requires
        t.len() > 0,
        table_ascii(t),
    ensures
        ascii_text(marquee_cols(t, total, col, out, maxw)),
        out <= maxw ==> marquee_cols(t, total, col, out, maxw).len() <= maxw - out,
    decreases maxw - out,
{
    if out < maxw {
        let pos = col % (total + 2);
        if pos >= total {
            lemma_marquee_cols_ascii(t, total, col + 1, out + 1, maxw);
            lemma_ascii_cons(' ', marquee_cols(t, total, col + 1, out + 1, maxw));
        } else {
            lemma_find_entry_range(t, pos, 0);
            let ci = match find_entry(t, pos, 0) {
                Some(k) => k,
                None => 0,
            };
            let w: int = match find_entry(t, pos, 0) {
                Some(k) => t[k].2 as int,
                None => 1,
            };
            let c_start = t[ci].0 as int;
            if pos > c_start {
                lemma_marquee_cols_ascii(t, total, c_start + w, out + 1, maxw);
                lemma_ascii_cons(' ', marquee_cols(t, total, c_start + w, out + 1, maxw));
            } else if out + w > maxw || w < 1 {
            } else {
                lemma_marquee_cols_ascii(t, total, col + w, out + w, maxw);
                assert(' ' <= t[ci].1 && t[ci].1 < '\u{7f}');
                lemma_ascii_cons(t[ci].1, marquee_cols(t, total, col + w, out + w, maxw));
            }
        }
    }
}

/// The characters of the marquee window before it is padded to `maxw` columns.
pub open spec fn marquee_window(
    t: Seq<(usize, char, usize)>,
    total: usize,
    offset: usize,
    maxw: usize,
) -> Seq<char> {
    marquee_cols(t, total as int, (offset as int) % (total as int + 2), 0, maxw as int)
}

/// The marquee text for a column table: blank for an empty table, otherwise the
/// window starting at `offset` (modulo the loop width), padded to `maxw`.
pub open spec fn marquee_text(
    t: Seq<(usize, char, usize)>,
    total: usize,
    offset: usize,
    maxw: usize,
) -> Seq<char> {
    if t.len() == 0 {
        spaces(maxw as nat)
    } else {
        pad_to(marquee_window(t, total, offset, maxw), maxw as nat)
    }
}

/// Renders `maxw` columns of a text that scrolls one column per `offset` step.
pub fn marquee_from_table(
    col_table: &Vec<(usize, char, usize)>,
    total_disp: usize,
    offset: usize,
    max_width: usize,
) -> (r: String)
    requires
        table_ok(col_table@, total_disp),
        total_disp + 2 + max_width <= usize::MAX,
    ensures
        r@ == marquee_text(col_table@, total_disp, offset, max_width),
        str_columns(r@) >= max_width || col_table@.len() == 0,
        col_table@.len() > 0 && str_columns(marquee_window(col_table@, total_disp, offset, max_width))
            <= max_width ==> str_columns(r@) == max_width,
        col_table@.len() > 0 && table_ascii(col_table@) ==> str_columns(r@) == max_width,
{
    if col_table.len() == 0 {
        let mut blank = String::new();
        push_spaces(&mut blank, max_width);
        assert(Seq::<char>::empty() + spaces(max_width as nat) =~= spaces(max_width as nat));
        return blank;
    }
    let ghost t = col_table@;
    let loop_disp = total_disp + 2;
    let start_col = offset % loop_disp;
    let mut result = String::new();
    let mut out_width: usize = 0;
    let mut col: usize = start_col;
    assert(Seq::<char>::empty() + marquee_cols(t, total_disp as int, start_col as int, 0, max_width as int)
        =~= marquee_cols(t, total_disp as int, start_col as int, 0, max_width as int));
    while out_width < max_width
        invariant_except_break
            t == col_table@,
            t.len() > 0,
            table_ok(t, total_disp),
            total_disp + 2 + max_width <= usize::MAX,
            loop_disp == total_disp + 2,
            out_width <= max_width,
            col <= loop_disp + out_width,
            result@ + marquee_cols(t, total_disp as int, col as int, out_width as int, max_width as int)
                == marquee_cols(t, total_disp as int, start_col as int, 0, max_width as int),
        ensures
            result@ == marquee_cols(t, total_disp as int, start_col as int, 0, max_width as int),
        decreases max_width - out_width,
    {
        let ghost before = result@;
        let ghost rest = marquee_cols(t, total_disp as int, col as int, out_width as int, max_width as int);
        let pos = col % loop_disp;
        if pos >= total_disp {
            push_char(&mut result, ' ');
            assert(rest == seq![' '] + marquee_cols(t, total_disp as int, col + 1, out_width + 1, max_width as int));
            out_width = out_width + 1;
            col = col + 1;
            assert(result@ + marquee_cols(t, total_disp as int, col as int, out_width as int, max_width as int)
                =~= before + rest);
        } else {
            let found = find_from(col_table, total_disp, pos, 0);
            let (ci, w) = match found {
                Some(k) => (k, col_table[k].2),
                None => (0, 1),
            };
            assert(t[ci as int].2 >= 1 && t[ci as int].0 + t[ci as int].2 <= total_disp);
            let c_start = col_table[ci].0;
            if pos > c_start {
                push_char(&mut result, ' ');
                assert(rest == seq![' '] + marquee_cols(t, total_disp as int, c_start + w, out_width + 1, max_width as int));
                out_width = out_width + 1;
                col = c_start + w;
                assert(result@ + marquee_cols(t, total_disp as int, col as int, out_width as int, max_width as int)
                    =~= before + rest);
            } else {
                if out_width + w > max_width {
                    assert(rest =~= Seq::<char>::empty());
                    assert(result@ + Seq::<char>::empty() =~= result@);
                    break;
                }
                let ch = col_table[ci].1;
                push_char(&mut result, ch);
                assert(rest == seq![ch] + marquee_cols(t, total_disp as int, col + w, out_width + w, max_width as int));
                out_width = out_width + w;
                col = col + w;
                assert(result@ + marquee_cols(t, total_disp as int, col as int, out_width as int, max_width as int)
                    =~= before + rest);
            }
        }
    }
    proof {
        if out_width >= max_width {
            assert(result@ + Seq::<char>::empty() =~= result@);
        }
        if table_ascii(t) {
            lemma_marquee_cols_ascii(t, total_disp as int, start_col as int, 0, max_width as int);
        }
    }
    pad_with_spaces(&mut result, max_width);
    result
}

/// The marquee text of `s`: blank for an empty text.
pub open spec fn marquee_of(s: Seq<char>, offset: usize, maxw: usize) -> Seq<char> {
    if s.len() == 0 {
        spaces(maxw as nat)
    } else {
        marquee_text(col_table(s), cell_sum(s) as usize, offset, maxw)
    }
}

/// Builds the column table of `s` and renders its marquee window.
pub fn marquee_slice(s: &str, offset: usize, max_width: usize) -> (r: String)
    requires
        3 * s@.len() + 2 + max_width <= usize::MAX,
    ensures
        r@ == marquee_of(s@, offset, max_width),
        s@.len() > 0 ==> str_columns(r@) >= max_width,
        s@.len() > 0 && ascii_text(s@) ==> str_columns(r@) == max_width,
        s@.len() > 0 && str_columns(
            marquee_window(col_table(s@), cell_sum(s@) as usize, offset, max_width),
        ) <= max_width ==> str_columns(r@) == max_width,
{
    if s.is_empty() {
        let mut blank = String::new();
        push_spaces(&mut blank, max_width);
        assert(Seq::<char>::empty() + spaces(max_width as nat) =~= spaces(max_width as nat));
        return blank;
    }
    let (table, total) = build_col_table(s);
    assert(ascii_text(s@) ==> table_ascii(table@));
    marquee_from_table(&table, total, offset, max_width)
}

/// Column tables of the texts rendered so far, and the scroll offset shared by
/// every marquee on screen. The tables are kept in a list searched by text rather
/// than in a `HashMap` keyed by `String`: vstd's map specifications prove nothing
/// of lookups by a `String` key, while the search through the list is proved to
/// find the table of the text, so the cache is proved never to change a result.
pub struct MarqueeCache {
    offset: usize,
    entries: Vec<(String, Vec<(usize, char, usize)>, usize)>,
}

impl MarqueeCache {
    /// Every cached table is the column table of its text.
    pub closed spec fn wf(&self) -> bool {
        forall|i: int|
            0 <= i < self.entries@.len() ==> {
                let e = #[trigger] self.entries@[i];
                &&& e.1@ == col_table(e.0@)
                &&& e.2 == cell_sum(e.0@)
                &&& e.2 <= 3 * e.0@.len()
                &&& table_ok(e.1@, e.2)
            }
    }

    /// The current scroll offset in columns.
    pub closed spec fn scroll(&self) -> usize {
        self.offset
    }

    /// How many texts have a cached table.
    pub closed spec fn cached(&self) -> nat {
        self.entries@.len()
    }

    /// An empty cache at offset 0.
    pub fn new() -> (c: Self)
        ensures
            c.wf(),
            c.scroll() == 0,
            c.cached() == 0,
    {
        MarqueeCache { offset: 0, entries: Vec::new() }
    }

    /// The current scroll offset.
    pub fn offset(&self) -> (r: usize)
        ensures
            r == self.scroll(),
    {
        self.offset
    }

    /// Renders `s` at the current offset in `max_width` columns, caching its column
    /// table. The text is the same as `marquee_slice` gives: the cache only saves work.
    pub fn render(&mut self, s: &str, max_width: usize) -> (r: String)
        requires
            old(self).wf(),
            3 * s@.len() + 2 + max_width <= usize::MAX,
        ensures
            final(self).wf(),
            final(self).scroll() == old(self).scroll(),
            r@ == marquee_of(s@, old(self).scroll(), max_width),
    {
        if s.is_empty() {
            let mut blank = String::new();
            push_spaces(&mut blank, max_width);
            assert(Seq::<char>::empty() + spaces(max_width as nat) =~= spaces(max_width as nat));
            return blank;
        }
        let key = s.to_owned();
        let n = self.entries.len();
        let mut i: usize = 0;
        while i < n
            invariant
                i <= n,
                n == self.entries@.len(),
                self.wf(),
                key@ == s@,
                3 * s@.len() + 2 + max_width <= usize::MAX,
            decreases n - i,
        {
            if self.entries[i].0 == key {
                let e = &self.entries[i];
                assert(self.entries@[i as int] == *e);
                return marquee_from_table(&e.1, e.2, self.offset, max_width);
            }
            i = i + 1;
        }
        let (table, total) = build_col_table(s);
        let r = marquee_from_table(&table, total, self.offset, max_width);
        let ghost old_entries = self.entries@;
        self.entries.push((key, table, total));
        assert forall|j: int| 0 <= j < self.entries@.len() implies {
            let e = #[trigger] self.entries@[j];
            &&& e.1@ == col_table(e.0@)
            &&& e.2 == cell_sum(e.0@)
            &&& e.2 <= 3 * e.0@.len()
            &&& table_ok(e.1@, e.2)
        } by {
            if j < old_entries.len() {
                assert(self.entries@[j] == old_entries[j]);
            }
        }
        r
    }

    /// Restarts every marquee from its first column.
    pub fn reset_offset(&mut self)
        requires
            old(self).wf(),
        ensures
            final(self).wf(),
            final(self).scroll() == 0,
            final(self).cached() == old(self).cached(),
    {
        self.offset = 0;
    }

    /// Moves every marquee on by one column.
    pub fn step(&mut self)
        requires
            old(self).wf(),
        ensures
            final(self).wf(),
            final(self).scroll() == old(self).scroll().wrapping_add(1),
            final(self).cached() == old(self).cached(),
    {
        self.offset = self.offset.wrapping_add(1);
    }

    /// Drops every cached table and restarts at offset 0.
    pub fn clear(&mut self)
        requires
            old(self).wf(),
        ensures
            final(self).wf(),
            final(self).scroll() == 0,
            final(self).cached() == 0,
    {
        self.offset = 0;
        self.entries.clear();
    }
}

/// A marquee repeats itself: moving the offset on by the loop width (the text's
/// display width plus the two-column gap) shows the same window.
pub proof fn lemma_marquee_period(s: Seq<char>, offset: usize, maxw: usize)
    requires
        offset + cell_sum(s) + 2 <= usize::MAX,
    ensures
        marquee_of(s, (offset + cell_sum(s) + 2) as usize, maxw) == marquee_of(s, offset, maxw),
{
    let period: int = (cell_sum(s) as usize) as int + 2;
    assert((cell_sum(s) as usize) as int == cell_sum(s));
    vstd::arithmetic::div_mod::lemma_mod_add_multiples_vanish(offset as int, period);
    assert(((offset + cell_sum(s) + 2) as usize) as int == period + offset);
}

} // verus!
