//! The executable text buffer.

use vstd::prelude::*;

use crate::chars::{chars_to_string, dec_chars, str_to_chars};
use crate::geom::{eff_h, eff_w, Rect};
use crate::laws::lemma_render_push;
use crate::model::{
    back_del_spec, break_line_spec, buf_wf, del_spec, empty_buf, gutter_row, gutter_spec,
    import_spec, insert_char_spec, insert_tab_spec, move_down_spec, move_eol_spec, move_left_spec,
    move_right_spec, move_sol_spec, move_up_spec, new_line_spec, pad_left, parse_lines,
    push_line_spec, render_spec, scroll_down_spec, scroll_left_spec, scroll_right_spec,
    scroll_up_spec, set_area_spec, split_rec, BufView,
};

verus! {

/// The sequence of line contents a vector of lines stands for.
pub open spec fn lines_view(l: Seq<Vec<char>>) -> Seq<Seq<char>> {
    Seq::new(l.len(), |i: int| l[i]@)
}

/// A line-oriented text buffer: an ordered sequence of lines, a cursor in
/// document coordinates, and a scroll offset mapping the document onto a
/// viewport.
pub struct TextBuffer {
    area: Rect,
    lines: Vec<Vec<char>>,
    cursor_col: usize,
    cursor_row: usize,
    row_off: usize,
    col_off: usize,
}

impl View for TextBuffer {
    type V = BufView;

    closed spec fn view(&self) -> BufView {
        BufView {
            area: self.area@,
            lines: lines_view(self.lines@),
            row: self.cursor_row as int,
            col: self.cursor_col as int,
            row_off: self.row_off as int,
            col_off: self.col_off as int,
        }
    }
}

impl TextBuffer {
    /// The buffer's invariant; every operation preserves it.
    pub open spec fn wf(&self) -> bool {
        buf_wf(self@)
    }

    /// A fresh buffer: one empty line, cursor and scroll at the origin, a
    /// zero viewport.
    pub fn new() -> (r: TextBuffer)
        ensures
            r@ == empty_buf(),
            r.wf(),
    {
        let mut lines: Vec<Vec<char>> = Vec::new();
        lines.push(Vec::new());
        let r = TextBuffer {
            area: Rect::new(0, 0, 0, 0),
            lines,
            cursor_col: 0,
            cursor_row: 0,
            row_off: 0,
            col_off: 0,
        };
        proof {
            assert(r@.lines =~~= empty_buf().lines);
            assert(r@ =~~= empty_buf());
        }
        r
    }

    /// The number of lines in the document.
    pub fn lines(&self) -> (n: usize)
        ensures
            n == self@.lines.len(),
    {
        self.lines.len()
    }

    /// The effective viewport width the scroll arithmetic uses.
    fn width_floor(&self) -> (w: usize)
        ensures
            w == eff_w(self@.area),
    {
        if self.area.width < 1 {
            1
        } else {
            self.area.width as usize
        }
    }

    /// The effective viewport height the scroll arithmetic uses.
    fn height_floor(&self) -> (h: usize)
        ensures
            h == eff_h(self@.area),
    {
        if self.area.height < 1 {
            1
        } else {
            self.area.height as usize
        }
    }

    /// One column right, following the right viewport edge with the scroll.
    pub fn mov_cursor_right(&mut self)
        requires
            old(self).wf(),
        ensures
            final(self)@ == move_right_spec(old(self)@),
            final(self).wf(),
    {
        let len: usize = self.lines[self.cursor_row].len();
        if self.cursor_col < len {
            self.cursor_col = self.cursor_col + 1;
        }
        let w: usize = self.width_floor();
        if self.cursor_col - self.col_off >= w {
            self.col_off = self.col_off + 1;
        }
        proof {
            assert(final(self)@ =~~= move_right_spec(old(self)@));
        }
    }

    /// One column left, following the left viewport edge with the scroll.
    pub fn mov_cursor_left(&mut self)
        requires
            old(self).wf(),
        ensures
            final(self)@ == move_left_spec(old(self)@),
            final(self).wf(),
    {
        if self.cursor_col > 0 {
            self.cursor_col = self.cursor_col - 1;
        }
        if self.cursor_col < self.col_off {
            self.col_off = self.col_off - 1;
        }
        proof {
            assert(final(self)@ =~~= move_left_spec(old(self)@));
        }
    }

    /// One row up, following the top viewport edge with the scroll and
    /// clamping the column to the new line.
    pub fn mov_cursor_up(&mut self)
        requires
            old(self).wf(),
        ensures
            final(self)@ == move_up_spec(old(self)@),
            final(self).wf(),
    {
        if self.cursor_row > 0 {
            self.cursor_row = self.cursor_row - 1;
        }
        if self.cursor_row < self.row_off {
            self.row_off = self.row_off - 1;
        }
        let len: usize = self.lines[self.cursor_row].len();
        if self.cursor_col > len {
            self.cursor_col = len;
            self.col_off = self.eol_offset(len);
        }
        proof {
            assert(final(self)@ =~~= move_up_spec(old(self)@));
        }
    }

    /// One row down, following the bottom viewport edge with the scroll and
    /// clamping the column to the new line.
    pub fn mov_cursor_down(&mut self)
        requires
            old(self).wf(),
        ensures
            final(self)@ == move_down_spec(old(self)@),
            final(self).wf(),
    {
        if self.cursor_row < self.lines.len() - 1 {
            self.cursor_row = self.cursor_row + 1;
        }
        let h: usize = self.height_floor();
        if self.cursor_row - self.row_off >= h {
            self.row_off = self.row_off + 1;
        }
        let len: usize = self.lines[self.cursor_row].len();
        if self.cursor_col > len {
            self.cursor_col = len;
            self.col_off = self.eol_offset(len);
        }
        proof {
            assert(final(self)@ =~~= move_down_spec(old(self)@));
        }
    }

    /// The column offset that scrolls the end of a line of length `len`
    /// just into view.
    fn eol_offset(&self, len: usize) -> (off: usize)
        ensures
            off == crate::model::eol_off(len as int, eff_w(self@.area)),
    {
        let w: usize = self.width_floor();
        if len >= w {
            (len - w) + 1
        } else {
            0
        }
    }

    /// To the end of the current line, scrolling the end into view.
    pub fn mov_cursor_eol(&mut self)
        requires
            old(self).wf(),
        ensures
            final(self)@ == move_eol_spec(old(self)@),
            final(self).wf(),
    {
        let len: usize = self.lines[self.cursor_row].len();
        self.cursor_col = len;
        self.col_off = self.eol_offset(len);
        proof {
            assert(final(self)@ =~~= move_eol_spec(old(self)@));
        }
    }

    /// To the start of the current line, with the scroll back at the left
    /// edge.
    pub fn mov_cursor_sol(&mut self)
        requires
            old(self).wf(),
        ensures
            final(self)@ == move_sol_spec(old(self)@),
            final(self).wf(),
    {
        self.cursor_col = 0;
        self.col_off = 0;
        proof {
            assert(final(self)@ =~~= move_sol_spec(old(self)@));
        }
    }

    /// Manual scroll one column right, dragging the cursor along when it
    /// would fall off the left edge.
    pub fn scroll_right(&mut self)
        requires
            old(self).wf(),
        ensures
            final(self)@ == scroll_right_spec(old(self)@),
            final(self).wf(),
    {
        let len: usize = self.lines[self.cursor_row].len();
        let w: usize = self.width_floor();
        if len - self.col_off >= w {
            self.col_off = self.col_off + 1;
            if self.cursor_col < self.col_off {
                self.cursor_col = self.col_off;
            }
        }
        proof {
            assert(final(self)@ =~~= scroll_right_spec(old(self)@));
        }
    }

    /// Manual scroll one column left, dragging the cursor along when it
    /// would fall off the right edge.
    pub fn scroll_left(&mut self)
        requires
            old(self).wf(),
        ensures
            final(self)@ == scroll_left_spec(old(self)@),
            final(self).wf(),
    {
        if self.col_off > 0 {
            self.col_off = self.col_off - 1;
            let w: usize = self.width_floor();
            if self.cursor_col - self.col_off >= w {
                self.cursor_col = self.col_off + (w - 1);
            }
        }
        proof {
            assert(final(self)@ =~~= scroll_left_spec(old(self)@));
        }
    }

    /// Manual scroll one row up, dragging the cursor along when it would
    /// fall off the bottom edge.
    pub fn scroll_up(&mut self)
        requires
            old(self).wf(),
        ensures
            final(self)@ == scroll_up_spec(old(self)@),
            final(self).wf(),
    {
        if self.row_off > 0 {
            self.row_off = self.row_off - 1;
            let h: usize = self.height_floor();
            if self.cursor_row - self.row_off >= h {
                self.cursor_row = self.row_off + (h - 1);
                let len: usize = self.lines[self.cursor_row].len();
                if self.cursor_col > len {
                    self.cursor_col = len;
                    self.col_off = self.eol_offset(len);
                }
            }
        }
        proof {
            assert(final(self)@ =~~= scroll_up_spec(old(self)@));
        }
    }

    /// Manual scroll one row down, dragging the cursor along when it would
    /// fall off the top edge.
    pub fn scroll_down(&mut self)
        requires
            old(self).wf(),
        ensures
            final(self)@ == scroll_down_spec(old(self)@),
            final(self).wf(),
    {
        if self.row_off < self.lines.len() - 1 {
            self.row_off = self.row_off + 1;
            if self.cursor_row < self.row_off {
                self.cursor_row = self.row_off;
                let len: usize = self.lines[self.cursor_row].len();
                if self.cursor_col > len {
                    self.cursor_col = len;
                    self.col_off = self.eol_offset(len);
                }
            }
        }
        proof {
            assert(final(self)@ =~~= scroll_down_spec(old(self)@));
        }
    }

    /// The cursor's screen position, derived from the document position and
    /// the scroll offset.
    pub fn get_cursor_pos(&self) -> (r: (u16, u16))
        requires
            self.wf(),
        ensures
            r.0 as int == self@.area.x + self@.col - self@.col_off,
            r.1 as int == self@.area.y + self@.row - self@.row_off,
    {
        let dx: usize = self.cursor_col - self.col_off;
        let dy: usize = self.cursor_row - self.row_off;
        (self.area.x + dx as u16, self.area.y + dy as u16)
    }

    /// The scroll offset as (row, column), saturated into u16 range.
    pub fn get_scroll(&self) -> (r: (u16, u16))
        ensures
            r.0 as int == (if self@.row_off > u16::MAX {
                u16::MAX as int
            } else {
                self@.row_off
            }),
            r.1 as int == (if self@.col_off > u16::MAX {
                u16::MAX as int
            } else {
                self@.col_off
            }),
    {
        let r: u16 = if self.row_off > 65535 {
            65535
        } else {
            self.row_off as u16
        };
        let c: u16 = if self.col_off > 65535 {
            65535
        } else {
            self.col_off as u16
        };
        (r, c)
    }

    /// The line at index `nth`.
    pub fn get_line(&self, nth: usize) -> (r: &Vec<char>)
        requires
            nth < self@.lines.len(),
        ensures
            r@ == self@.lines[nth as int],
    {
        &self.lines[nth]
    }

    /// Insert one character at the cursor and advance one column.
    pub fn cursor_insert(&mut self, ch: char)
        requires
            old(self).wf(),
        ensures
            final(self)@ == insert_char_spec(old(self)@, ch),
            final(self).wf(),
    {
        let mut line: Vec<char> = self.lines.remove(self.cursor_row);
        line.insert(self.cursor_col, ch);
        self.lines.insert(self.cursor_row, line);
        proof {
            assert(self@ =~~= (BufView {
                lines: old(self)@.lines.update(
                    old(self)@.row,
                    old(self)@.lines[old(self)@.row].insert(old(self)@.col, ch),
                ),
                ..old(self)@
            }));
        }
        self.mov_cursor_right();
    }

    /// Insert four literal spaces at the cursor and advance four columns,
    /// one at a time, each step re-checking the right viewport edge.
    pub fn cursor_tab(&mut self)
        requires
            old(self).wf(),
        ensures
            final(self)@ == insert_tab_spec(old(self)@),
            final(self).wf(),
    {
        let mut line: Vec<char> = self.lines.remove(self.cursor_row);
        line.insert(self.cursor_col, ' ');
        line.insert(self.cursor_col, ' ');
        line.insert(self.cursor_col, ' ');
        line.insert(self.cursor_col, ' ');
        self.lines.insert(self.cursor_row, line);
        proof {
            let v0 = old(self)@;
            let l0 = v0.lines[v0.row];
            assert(line@ =~= l0.take(v0.col) + seq![' ', ' ', ' ', ' '] + l0.skip(v0.col));
            assert(self@ =~~= (BufView {
                lines: v0.lines.update(
                    v0.row,
                    l0.take(v0.col) + seq![' ', ' ', ' ', ' '] + l0.skip(v0.col),
                ),
                ..v0
            }));
        }
        self.mov_cursor_right();
        self.mov_cursor_right();
        self.mov_cursor_right();
        self.mov_cursor_right();
    }

    /// Split the current line at the cursor; the tail becomes the next
    /// line, and the cursor stays at the end of the head.
    pub fn break_line(&mut self)
        requires
            old(self).wf(),
        ensures
            final(self)@ == break_line_spec(old(self)@),
            final(self).wf(),
    {
        let n: usize = self.lines.len();
        proof {
            assert(self.cursor_row < n);
        }
        let mut line: Vec<char> = self.lines.remove(self.cursor_row);
        let tail: Vec<char> = line.split_off(self.cursor_col);
        self.lines.insert(self.cursor_row, line);
        self.lines.insert(self.cursor_row + 1, tail);
        proof {
            assert(final(self)@.lines =~~= break_line_spec(old(self)@).lines);
            assert(final(self)@ =~~= break_line_spec(old(self)@));
        }
    }

    /// Split the current line at the cursor, move onto the tail, and reset
    /// the cursor and horizontal scroll to the line start.
    pub fn new_line(&mut self)
        requires
            old(self).wf(),
        ensures
            final(self)@ == new_line_spec(old(self)@),
            final(self).wf(),
    {
        self.break_line();
        self.mov_cursor_down();
        self.mov_cursor_sol();
    }

    /// Delete forward: remove an empty line that has a successor, else the
    /// character at the cursor, else nothing.
    pub fn cursor_del(&mut self)
        requires
            old(self).wf(),
        ensures
            final(self)@ == del_spec(old(self)@),
            final(self).wf(),
    {
        let n: usize = self.lines.len();
        proof {
            assert(self.cursor_row < n);
        }
        let len: usize = self.lines[self.cursor_row].len();
        if len == 0 && self.cursor_row + 1 < n {
            let _removed = self.lines.remove(self.cursor_row);
        } else if self.cursor_col < len {
            let mut line: Vec<char> = self.lines.remove(self.cursor_row);
            let _c = line.remove(self.cursor_col);
            self.lines.insert(self.cursor_row, line);
        }
        proof {
            assert(final(self)@ =~~= del_spec(old(self)@));
        }
    }

    /// Delete backward: at column zero of a later row, merge into the
    /// previous row; at the origin, nothing; otherwise one step left and
    /// the character there is removed.
    pub fn cursor_back_del(&mut self)
        requires
            old(self).wf(),
        ensures
            final(self)@ == back_del_spec(old(self)@),
            final(self).wf(),
    {
        if self.cursor_col == 0 {
            if self.cursor_row != 0 {
                let mut cur: Vec<char> = self.lines.remove(self.cursor_row);
                let mut prev: Vec<char> = self.lines.remove(self.cursor_row - 1);
                let prev_len: usize = prev.len();
                prev.append(&mut cur);
                self.lines.insert(self.cursor_row - 1, prev);
                self.cursor_row = self.cursor_row - 1;
                self.cursor_col = prev_len;
                if self.cursor_row < self.row_off {
                    self.row_off = self.row_off - 1;
                }
                self.col_off = self.eol_offset(prev_len);
                proof {
                    assert(final(self)@.lines =~~= back_del_spec(old(self)@).lines);
                    assert(final(self)@ =~~= back_del_spec(old(self)@));
                }
            }
        } else {
            self.mov_cursor_left();
            self.cursor_del();
        }
    }

    /// Append a line at the end of the document.
    pub fn push_line(&mut self, s: String)
        requires
            old(self).wf(),
        ensures
            final(self)@ == push_line_spec(old(self)@, s@),
            final(self).wf(),
    {
        let v: Vec<char> = str_to_chars(s.as_str());
        self.lines.push(v);
        proof {
            assert(final(self)@ =~~= push_line_spec(old(self)@, s@));
        }
    }

    /// Append an empty line at the end of the document.
    pub fn push_new_line(&mut self)
        requires
            old(self).wf(),
        ensures
            final(self)@ == push_line_spec(old(self)@, Seq::<char>::empty()),
            final(self).wf(),
    {
        self.lines.push(Vec::new());
        proof {
            assert(final(self)@ =~~= push_line_spec(old(self)@, Seq::<char>::empty()));
        }
    }

    /// Store the viewport for this layout pass, clamped into u16 screen
    /// space; the scroll offset is pulled forward just far enough that the
    /// cursor stays visible if the viewport shrank.
    pub fn set_text_area(&mut self, rect: Rect)
        requires
            old(self).wf(),
        ensures
            final(self)@ == set_area_spec(old(self)@, rect@),
            final(self).wf(),
    {
        let w2: u16 = if rect.width <= 65535 - rect.x {
            rect.width
        } else {
            65535 - rect.x
        };
        let h2: u16 = if rect.height <= 65535 - rect.y {
            rect.height
        } else {
            65535 - rect.y
        };
        self.area = Rect { x: rect.x, y: rect.y, width: w2, height: h2 };
        let h: usize = self.height_floor();
        if self.cursor_row - self.row_off >= h {
            self.row_off = (self.cursor_row - h) + 1;
        }
        let w: usize = self.width_floor();
        if self.cursor_col - self.col_off >= w {
            self.col_off = (self.cursor_col - w) + 1;
        }
        proof {
            assert(final(self)@ =~~= set_area_spec(old(self)@, rect@));
        }
    }

    /// Reset the buffer to its fresh state: one empty line, cursor and
    /// scroll at the origin, a zero viewport.
    pub fn clear(&mut self)
        ensures
            final(self)@ == empty_buf(),
            final(self).wf(),
    {
        self.area = Rect::new(0, 0, 0, 0);
        self.lines = Vec::new();
        self.lines.push(Vec::new());
        self.cursor_col = 0;
        self.cursor_row = 0;
        self.row_off = 0;
        self.col_off = 0;
        proof {
            assert(final(self)@.lines =~~= empty_buf().lines);
            assert(final(self)@ =~~= empty_buf());
        }
    }

    /// The flattened document: every line in order, each terminated by a
    /// newline.
    pub fn to_string(&self) -> (r: String)
        ensures
            r@ == render_spec(self@.lines),
    {
        let mut out: Vec<char> = Vec::new();
        let mut i: usize = 0;
        while i < self.lines.len()
            invariant
                i <= self.lines.len(),
                out@ == render_spec(self@.lines.take(i as int)),
            decreases self.lines.len() - i,
        {
            let line: &Vec<char> = &self.lines[i];
            let mut j: usize = 0;
            while j < line.len()
                invariant
                    j <= line.len(),
                    i < self.lines.len(),
                    line@ == self@.lines[i as int],
                    out@ == render_spec(self@.lines.take(i as int)) + line@.take(j as int),
                decreases line.len() - j,
            {
                out.push(line[j]);
                j = j + 1;
                proof {
                    assert(line@.take(j as int) =~= line@.take(j - 1).push(line@[j - 1]));
                    assert(out@ =~= render_spec(self@.lines.take(i as int)) + line@.take(
                        j as int,
                    ));
                }
            }
            proof {
                assert(line@.take(line@.len() as int) =~= line@);
            }
            out.push('\n');
            proof {
                lemma_render_push(self@.lines.take(i as int), self@.lines[i as int]);
                assert(self@.lines.take(i as int).push(self@.lines[i as int]) =~~= self@.lines.take(
                    (i + 1) as int,
                ));
                assert(out@ =~= render_spec(self@.lines.take((i + 1) as int)));
            }
            i = i + 1;
        }
        proof {
            assert(self@.lines.take(self.lines.len() as int) =~~= self@.lines);
        }
        chars_to_string(&out)
    }

    /// Replace the document with the lines of `text` and reset the cursor
    /// and scroll to the origin.
    pub fn import(&mut self, text: &str)
        requires
            old(self).wf(),
        ensures
            final(self)@ == import_spec(old(self)@, text@),
            final(self).wf(),
    {
        let chars: Vec<char> = str_to_chars(text);
        let mut new_lines: Vec<Vec<char>> = Vec::new();
        let mut cur: Vec<char> = Vec::new();
        let mut i: usize = 0;
        proof {
            assert(lines_view(new_lines@) =~~= Seq::<Seq<char>>::empty());
            assert(text@.skip(0) =~= text@);
            assert(lines_view(new_lines@) + split_rec(text@.skip(0), cur@) =~~= split_rec(
                text@,
                Seq::<char>::empty(),
            ));
        }
        while i < chars.len()
            invariant
                i <= chars.len(),
                chars@ == text@,
                lines_view(new_lines@) + split_rec(text@.skip(i as int), cur@) == split_rec(
                    text@,
                    Seq::<char>::empty(),
                ),
            decreases chars.len() - i,
        {
            let ghost lv0 = lines_view(new_lines@);
            let ghost cur0 = cur@;
            let c: char = chars[i];
            proof {
                assert(text@.skip(i as int)[0] == text@[i as int]);
                assert(text@.skip(i as int).drop_first() =~= text@.skip((i + 1) as int));
            }
            if c == '\n' {
                new_lines.push(cur);
                cur = Vec::new();
                proof {
                    assert(lines_view(new_lines@) =~~= lv0.push(cur0));
                    assert(lv0.push(cur0) + split_rec(text@.skip((i + 1) as int), cur@) =~~= lv0
                        + (seq![cur0] + split_rec(text@.skip((i + 1) as int), cur@)));
                }
            } else {
                cur.push(c);
            }
            i = i + 1;
        }
        proof {
            assert(text@.skip(chars@.len() as int) =~= Seq::<char>::empty());
        }
        let ghost lv1 = lines_view(new_lines@);
        let ghost cur1 = cur@;
        if cur.len() > 0 {
            new_lines.push(cur);
            proof {
                assert(lines_view(new_lines@) =~~= lv1.push(cur1));
                assert(lv1.push(cur1) =~~= lv1 + seq![cur1]);
            }
        }
        if new_lines.len() == 0 {
            new_lines.push(Vec::new());
        }
        self.lines = new_lines;
        self.cursor_col = 0;
        self.cursor_row = 0;
        self.row_off = 0;
        self.col_off = 0;
        proof {
            assert(final(self)@.lines =~~= parse_lines(text@));
            assert(final(self)@ =~~= import_spec(old(self)@, text@));
        }
    }

    /// The line-number gutter for this document: each row number
    /// right-aligned in `width` characters, a separator, and a newline.
    pub fn render_gutter(&self, width: usize) -> (r: String)
        ensures
            r@ == gutter_spec(self@.lines.len() as int, width as int),
    {
        let mut out: Vec<char> = Vec::new();
        let n: usize = self.lines.len();
        let mut c: usize = 0;
        while c < n
            invariant
                c <= n,
                out@ == gutter_spec(c as int, width as int),
            decreases n - c,
        {
            let row: usize = c + 1;
            let ghost before = out@;
            let ds: Vec<char> = dec_chars(row);
            let pad: usize = if width > ds.len() {
                width - ds.len()
            } else {
                0
            };
            let mut k: usize = 0;
            while k < pad
                invariant
                    k <= pad,
                    out@ == before + Seq::new(k as nat, |q: int| ' '),
                decreases pad - k,
            {
                out.push(' ');
                k = k + 1;
                proof {
                    assert(out@ =~= before + Seq::new(k as nat, |q: int| ' '));
                }
            }
            let mut j: usize = 0;
            while j < ds.len()
                invariant
                    j <= ds.len(),
                    out@ == before + Seq::new(pad as nat, |q: int| ' ') + ds@.take(j as int),
                decreases ds.len() - j,
            {
                out.push(ds[j]);
                j = j + 1;
                proof {
                    assert(out@ =~= before + Seq::new(pad as nat, |q: int| ' ') + ds@.take(
                        j as int,
                    ));
                }
            }
            out.push(' ');
            out.push(' ');
            out.push(':');
            out.push('\n');
            proof {
                assert(ds@.take(ds@.len() as int) =~= ds@);
                assert(pad_left(ds@, width as int) =~= Seq::new(pad as nat, |q: int| ' ')
                    + ds@);
                assert(out@ =~= before + gutter_row(row as int, width as int));
                assert(out@ =~= gutter_spec((c + 1) as int, width as int));
            }
            c = c + 1;
        }
        chars_to_string(&out)
    }
}

} // verus!
