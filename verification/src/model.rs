//! The mathematical model of the buffer.
//!
//! `BufView` is the abstract state: the document as a sequence of character
//! sequences, the cursor in document coordinates, the scroll offset, and the
//! viewport.  Every executable operation of the buffer promises in its
//! `ensures` to equal one of the transition functions below, and every
//! transition preserves the well-formedness predicate `buf_wf`.

use vstd::prelude::*;

use crate::geom::{eff_h, eff_w, area_ok, RectView};

verus! {

/// Abstract state of a text buffer.
#[verifier::ext_equal]
pub ghost struct BufView {
    /// The viewport rectangle.
    pub area: RectView,
    /// The document: one sequence of characters per line, no terminators.
    pub lines: Seq<Seq<char>>,
    /// Cursor row, an index into `lines`.
    pub row: int,
    /// Cursor column, `0 ..= lines[row].len()`.
    pub col: int,
    /// Index of the first document row shown at the viewport top.
    pub row_off: int,
    /// Leading columns of the cursor row hidden to the left.
    pub col_off: int,
}

/// Well-formedness: the document has at least one line, the cursor is inside
/// the document (the column may sit just past the line end), and the scroll
/// offset keeps the cursor's screen position inside the viewport, with a
/// degenerate viewport widened to one cell for the arithmetic.
pub open spec fn buf_wf(v: BufView) -> bool {
    &&& area_ok(v.area)
    &&& 1 <= v.lines.len()
    &&& 0 <= v.row < v.lines.len()
    &&& 0 <= v.col <= v.lines[v.row].len()
    &&& 0 <= v.row_off <= v.row
    &&& v.row < v.row_off + eff_h(v.area)
    &&& 0 <= v.col_off <= v.col
    &&& v.col < v.col_off + eff_w(v.area)
}

/// The state a fresh buffer starts in: one empty line, everything at zero.
pub open spec fn empty_buf() -> BufView {
    BufView {
        area: RectView { x: 0, y: 0, w: 0, h: 0 },
        lines: seq![Seq::<char>::empty()],
        row: 0,
        col: 0,
        row_off: 0,
        col_off: 0,
    }
}

/// The column offset after a move to the end of a line of length `len`:
/// just enough scroll that the end is the last visible cell, never negative.
pub open spec fn eol_off(len: int, w: int) -> int {
    if len + 1 - w > 0 {
        len + 1 - w
    } else {
        0
    }
}

/// Land the cursor on row `row2` with row offset `off2`: when the row is
/// shorter than the current column, the move becomes a move to its end,
/// scrolling the line end into view; otherwise column and column offset stay.
pub open spec fn land_on_row(v: BufView, row2: int, off2: int) -> BufView {
    let len: int = v.lines[row2].len() as int;
    if v.col > len {
        BufView {
            row: row2,
            row_off: off2,
            col: len,
            col_off: eol_off(len, eff_w(v.area)),
            ..v
        }
    } else {
        BufView { row: row2, row_off: off2, ..v }
    }
}

/// One column right, stopped at the line end; the column offset follows when
/// the cursor would leave the right viewport edge.
pub open spec fn move_right_spec(v: BufView) -> BufView {
    let len: int = v.lines[v.row].len() as int;
    let col2: int = if v.col < len {
        v.col + 1
    } else {
        v.col
    };
    let off2: int = if col2 >= v.col_off + eff_w(v.area) {
        v.col_off + 1
    } else {
        v.col_off
    };
    BufView { col: col2, col_off: off2, ..v }
}

/// One column left, stopped at zero; the column offset follows when the
/// cursor would leave the left viewport edge.
pub open spec fn move_left_spec(v: BufView) -> BufView {
    let col2: int = if v.col > 0 {
        v.col - 1
    } else {
        0
    };
    let off2: int = if col2 < v.col_off {
        v.col_off - 1
    } else {
        v.col_off
    };
    BufView { col: col2, col_off: off2, ..v }
}

/// One row up, stopped at the first row; the row offset follows when the
/// cursor would leave the top edge, and the column clamps to the new line.
pub open spec fn move_up_spec(v: BufView) -> BufView {
    let row2: int = if v.row > 0 {
        v.row - 1
    } else {
        0
    };
    let off2: int = if row2 < v.row_off {
        v.row_off - 1
    } else {
        v.row_off
    };
    land_on_row(v, row2, off2)
}

/// One row down, stopped at the last row; the row offset follows when the
/// cursor would leave the bottom edge, and the column clamps to the new line.
pub open spec fn move_down_spec(v: BufView) -> BufView {
    let row2: int = if v.row < v.lines.len() - 1 {
        v.row + 1
    } else {
        v.row
    };
    let off2: int = if row2 >= v.row_off + eff_h(v.area) {
        v.row_off + 1
    } else {
        v.row_off
    };
    land_on_row(v, row2, off2)
}

/// To the end of the current line, scrolling the end into view.
pub open spec fn move_eol_spec(v: BufView) -> BufView {
    let len: int = v.lines[v.row].len() as int;
    BufView { col: len, col_off: eol_off(len, eff_w(v.area)), ..v }
}

/// To the start of the current line, with the scroll reset to the left edge.
pub open spec fn move_sol_spec(v: BufView) -> BufView {
    BufView { col: 0, col_off: 0, ..v }
}

/// Manual scroll one column right, only while the current line still has
/// content at or past the right edge; the cursor is dragged along when it
/// would fall off the left edge.
pub open spec fn scroll_right_spec(v: BufView) -> BufView {
    let len: int = v.lines[v.row].len() as int;
    if len >= v.col_off + eff_w(v.area) {
        let off2: int = v.col_off + 1;
        let col2: int = if v.col < off2 {
            off2
        } else {
            v.col
        };
        BufView { col: col2, col_off: off2, ..v }
    } else {
        v
    }
}

/// Manual scroll one column left, stopped at zero; the cursor is dragged
/// along when it would fall off the right edge.
pub open spec fn scroll_left_spec(v: BufView) -> BufView {
    if v.col_off > 0 {
        let off2: int = v.col_off - 1;
        let col2: int = if v.col >= off2 + eff_w(v.area) {
            off2 + eff_w(v.area) - 1
        } else {
            v.col
        };
        BufView { col: col2, col_off: off2, ..v }
    } else {
        v
    }
}

/// Manual scroll one row up, stopped at zero; the cursor is dragged along
/// when it would fall off the bottom edge, clamping to the landed row.
pub open spec fn scroll_up_spec(v: BufView) -> BufView {
    if v.row_off > 0 {
        let off2: int = v.row_off - 1;
        let row2: int = if v.row >= off2 + eff_h(v.area) {
            off2 + eff_h(v.area) - 1
        } else {
            v.row
        };
        land_on_row(v, row2, off2)
    } else {
        v
    }
}

/// Manual scroll one row down, only while a further row could reach the top;
/// the cursor is dragged along when it would fall off the top edge.
pub open spec fn scroll_down_spec(v: BufView) -> BufView {
    if v.row_off < v.lines.len() - 1 {
        let off2: int = v.row_off + 1;
        let row2: int = if v.row < off2 {
            off2
        } else {
            v.row
        };
        land_on_row(v, row2, off2)
    } else {
        v
    }
}

/// Insert one character at the cursor, then advance one column as
/// `move_right_spec` does.
pub open spec fn insert_char_spec(v: BufView, ch: char) -> BufView {
    let v2 = BufView { lines: v.lines.update(v.row, v.lines[v.row].insert(v.col, ch)), ..v };
    move_right_spec(v2)
}

/// Insert four literal spaces at the cursor, then advance four columns one
/// at a time, each step re-checking the right viewport edge.
pub open spec fn insert_tab_spec(v: BufView) -> BufView {
    let line: Seq<char> = v.lines[v.row];
    let line2: Seq<char> = line.take(v.col) + seq![' ', ' ', ' ', ' '] + line.skip(v.col);
    let v2 = BufView { lines: v.lines.update(v.row, line2), ..v };
    move_right_spec(move_right_spec(move_right_spec(move_right_spec(v2))))
}

/// Split the current line at the cursor: the head stays, the tail becomes a
/// new line right below.  The cursor does not move.
pub open spec fn break_line_spec(v: BufView) -> BufView {
    let line: Seq<char> = v.lines[v.row];
    BufView {
        lines: v.lines.update(v.row, line.take(v.col)).insert(v.row + 1, line.skip(v.col)),
        ..v
    }
}

/// Split the current line at the cursor, move down onto the tail, and reset
/// the cursor and the horizontal scroll to the line start.
pub open spec fn new_line_spec(v: BufView) -> BufView {
    move_sol_spec(move_down_spec(break_line_spec(v)))
}

/// Delete forward: an empty line with a successor is removed whole (a merge
/// downward); otherwise the character at the cursor is removed; at the end
/// of the last line nothing happens.
pub open spec fn del_spec(v: BufView) -> BufView {
    let len: int = v.lines[v.row].len() as int;
    if len == 0 && v.row + 1 < v.lines.len() {
        BufView { lines: v.lines.remove(v.row), ..v }
    } else if v.col < len {
        BufView { lines: v.lines.update(v.row, v.lines[v.row].remove(v.col)), ..v }
    } else {
        v
    }
}

/// Delete backward: at column zero of a later row the row merges into the
/// previous one and the cursor lands at the join, with the join scrolled
/// into view; at the origin nothing happens; otherwise one step left and the
/// character there is removed.
pub open spec fn back_del_spec(v: BufView) -> BufView {
    if v.col == 0 {
        if v.row == 0 {
            v
        } else {
            let prev: Seq<char> = v.lines[v.row - 1];
            let off2: int = if v.row - 1 < v.row_off {
                v.row_off - 1
            } else {
                v.row_off
            };
            BufView {
                lines: v.lines.update(v.row - 1, prev + v.lines[v.row]).remove(v.row),
                row: v.row - 1,
                col: prev.len() as int,
                row_off: off2,
                col_off: eol_off(prev.len() as int, eff_w(v.area)),
                ..v
            }
        }
    } else {
        del_spec(move_left_spec(v))
    }
}

/// Append a line at the end of the document.
pub open spec fn push_line_spec(v: BufView, s: Seq<char>) -> BufView {
    BufView { lines: v.lines.push(s), ..v }
}

/// Store a viewport: its size is clamped into u16 screen space, and the
/// scroll offset is pulled forward just far enough that the cursor is
/// visible again if the viewport shrank.
pub open spec fn set_area_spec(v: BufView, r: RectView) -> BufView {
    let w2: int = if r.w <= u16::MAX - r.x {
        r.w
    } else {
        u16::MAX - r.x
    };
    let h2: int = if r.h <= u16::MAX - r.y {
        r.h
    } else {
        u16::MAX - r.y
    };
    let a2 = RectView { x: r.x, y: r.y, w: w2, h: h2 };
    let ro2: int = if v.row >= v.row_off + eff_h(a2) {
        v.row + 1 - eff_h(a2)
    } else {
        v.row_off
    };
    let co2: int = if v.col >= v.col_off + eff_w(a2) {
        v.col + 1 - eff_w(a2)
    } else {
        v.col_off
    };
    BufView { area: a2, row_off: ro2, col_off: co2, ..v }
}

/// The flattened document: every line in order, each terminated by a
/// newline.
pub open spec fn render_spec(lines: Seq<Seq<char>>) -> Seq<char>
    decreases lines.len(),
{
    if lines.len() == 0 {
        Seq::empty()
    } else {
        lines[0] + seq!['\n'] + render_spec(lines.drop_first())
    }
}

/// Split a text on newline terminators, scanning left to right with `cur`
/// the line collected so far.  A trailing newline closes the last line; a
/// trailing fragment without one still counts as a line.
pub open spec fn split_rec(t: Seq<char>, cur: Seq<char>) -> Seq<Seq<char>>
    decreases t.len(),
{
    if t.len() == 0 {
        if cur.len() == 0 {
            Seq::empty()
        } else {
            seq![cur]
        }
    } else if t[0] == '\n' {
        seq![cur] + split_rec(t.drop_first(), Seq::empty())
    } else {
        split_rec(t.drop_first(), cur.push(t[0]))
    }
}

/// The document a text imports to: its lines, or a single empty line when
/// the text is empty.
pub open spec fn parse_lines(t: Seq<char>) -> Seq<Seq<char>> {
    let s = split_rec(t, Seq::empty());
    if s.len() == 0 {
        seq![Seq::<char>::empty()]
    } else {
        s
    }
}

/// Replace the document with the parsed text and reset cursor and scroll.
pub open spec fn import_spec(v: BufView, t: Seq<char>) -> BufView {
    BufView { lines: parse_lines(t), row: 0, col: 0, row_off: 0, col_off: 0, ..v }
}

/// A line holds no newline terminator.
pub open spec fn no_newline(l: Seq<char>) -> bool {
    forall|i: int| 0 <= i < l.len() ==> l[i] != '\n'
}

/// No line of the document holds a newline terminator.
pub open spec fn newline_free(lines: Seq<Seq<char>>) -> bool {
    forall|i: int| 0 <= i < lines.len() ==> no_newline(#[trigger] lines[i])
}

/// The decimal digit characters of `n`, most significant first.
pub open spec fn dec_rep(n: int) -> Seq<char>
    decreases n,
{
    if n < 10 {
        seq![dec_digit(n)]
    } else {
        dec_rep(n / 10).push(dec_digit(n % 10))
    }
}

/// The character for one decimal digit.
pub open spec fn dec_digit(d: int) -> char {
    if d == 0 {
        '0'
    } else if d == 1 {
        '1'
    } else if d == 2 {
        '2'
    } else if d == 3 {
        '3'
    } else if d == 4 {
        '4'
    } else if d == 5 {
        '5'
    } else if d == 6 {
        '6'
    } else if d == 7 {
        '7'
    } else if d == 8 {
        '8'
    } else {
        '9'
    }
}

/// `s` padded on the left with spaces to at least `width` characters.
pub open spec fn pad_left(s: Seq<char>, width: int) -> Seq<char> {
    if s.len() < width {
        Seq::new((width - s.len()) as nat, |i: int| ' ') + s
    } else {
        s
    }
}

/// One gutter row: the row number right-aligned in `width` characters, the
/// separator, and a newline.
pub open spec fn gutter_row(n: int, width: int) -> Seq<char> {
    pad_left(dec_rep(n), width) + seq![' ', ' ', ':', '\n']
}

/// The gutter for rows `1 ..= count`.
pub open spec fn gutter_spec(count: int, width: int) -> Seq<char>
    decreases count,
{
    if count <= 0 {
        Seq::empty()
    } else {
        gutter_spec(count - 1, width) + gutter_row(count, width)
    }
}

} // verus!
