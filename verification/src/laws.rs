//! Laws relating the buffer's operations, proved over the abstract model.

use vstd::prelude::*;

use crate::geom::{eff_h, eff_w, RectView};
use crate::model::{
    back_del_spec, buf_wf, import_spec, move_down_spec, move_sol_spec, new_line_spec,
    newline_free, no_newline, parse_lines, render_spec, scroll_up_spec, set_area_spec, split_rec,
    BufView,
};

verus! {

/// Rendering a document with one more line appends that line and a newline.
pub proof fn lemma_render_push(s: Seq<Seq<char>>, l: Seq<char>)
    ensures
        render_spec(s.push(l)) == render_spec(s) + l + seq!['\n'],
    decreases s.len(),
{
    if s.len() == 0 {
        let t = s.push(l);
        assert(t[0] == l);
        assert(t.drop_first() =~~= Seq::<Seq<char>>::empty());
        assert(render_spec(t.drop_first()) == Seq::<char>::empty());
        assert(render_spec(t) == l + seq!['\n'] + render_spec(t.drop_first()));
        assert(render_spec(t) =~= render_spec(s) + l + seq!['\n']);
    } else {
        assert(s.push(l).drop_first() =~~= s.drop_first().push(l));
        lemma_render_push(s.drop_first(), l);
        assert(render_spec(s.push(l)) =~= render_spec(s) + l + seq!['\n']);
    }
}

/// Moving to the line start twice yields the same state as doing it once.
pub proof fn lemma_move_sol_idempotent(v: BufView)
    ensures
        move_sol_spec(move_sol_spec(v)) == move_sol_spec(v),
{
}

/// Scrolling up with the row offset already at zero changes nothing.
pub proof fn lemma_scroll_up_at_top_is_noop(v: BufView)
    requires
        buf_wf(v),
        v.row_off == 0,
    ensures
        scroll_up_spec(v) == v,
{
}

/// Deleting backward at the origin changes nothing.
pub proof fn lemma_back_del_at_origin_is_noop(v: BufView)
    requires
        v.col == 0,
        v.row == 0,
    ensures
        back_del_spec(v) == v,
{
}

/// Splitting the line at the cursor and deleting backward from the start of
/// the tail restores the document, the cursor row, and the cursor column.
pub proof fn lemma_split_then_back_del_restores(v: BufView)
    requires
        buf_wf(v),
    ensures
        back_del_spec(new_line_spec(v)).lines =~~= v.lines,
        back_del_spec(new_line_spec(v)).row == v.row,
        back_del_spec(new_line_spec(v)).col == v.col,
{
    let line = v.lines[v.row];
    let w = back_del_spec(new_line_spec(v));
    assert(line.take(v.col) + line.skip(v.col) =~= line);
    assert(w.lines =~~= v.lines);
}

/// Moving down onto a shorter line clamps the column to that line's length.
pub proof fn lemma_vertical_clamp(v: BufView)
    requires
        buf_wf(v),
        v.row + 1 < v.lines.len(),
        v.lines[v.row + 1].len() < v.col,
    ensures
        move_down_spec(v).row == v.row + 1,
        move_down_spec(v).col == v.lines[v.row + 1].len(),
        move_down_spec(v).col <= v.lines[move_down_spec(v).row].len(),
{
}

/// Storing the same viewport twice yields the same state as storing it
/// once.
pub proof fn lemma_set_area_idempotent(v: BufView, r: RectView)
    requires
        buf_wf(v),
    ensures
        set_area_spec(set_area_spec(v, r), r) == set_area_spec(v, r),
{
}

/// In a well-formed buffer the derived screen position lies inside the
/// viewport, widened to one cell where it is degenerate.
pub proof fn lemma_screen_position_in_viewport(v: BufView)
    requires
        buf_wf(v),
    ensures
        v.area.x <= v.area.x + v.col - v.col_off < v.area.x + eff_w(v.area),
        v.area.y <= v.area.y + v.row - v.row_off < v.area.y + eff_h(v.area),
        v.area.x + v.col - v.col_off <= u16::MAX,
        v.area.y + v.row - v.row_off <= u16::MAX,
{
}

/// Splitting a newline-terminated first line off a text: the collected
/// prefix plus that line becomes one document line, and the rest of the
/// text is split on its own.
proof fn lemma_split_first_line(l: Seq<char>, rest: Seq<char>, cur: Seq<char>)
    requires
        no_newline(l),
    ensures
        split_rec(l + seq!['\n'] + rest, cur) == seq![cur + l] + split_rec(
            rest,
            Seq::<char>::empty(),
        ),
    decreases l.len(),
{
    let t = l + seq!['\n'] + rest;
    if l.len() == 0 {
        assert(t[0] == '\n');
        assert(t.drop_first() =~= rest);
        assert(cur + l =~= cur);
        assert(split_rec(t, cur) =~~= seq![cur + l] + split_rec(rest, Seq::<char>::empty()));
    } else {
        assert(t[0] == l[0]);
        assert(l[0] != '\n');
        assert(t.drop_first() =~= l.drop_first() + seq!['\n'] + rest);
        lemma_split_first_line(l.drop_first(), rest, cur.push(l[0]));
        assert(cur.push(l[0]) + l.drop_first() =~= cur + l);
        assert(split_rec(t, cur) =~~= seq![cur + l] + split_rec(rest, Seq::<char>::empty()));
    }
}

/// Splitting a rendered document recovers its lines exactly.
proof fn lemma_split_render(lines: Seq<Seq<char>>)
    requires
        1 <= lines.len(),
        newline_free(lines),
    ensures
        split_rec(render_spec(lines), Seq::<char>::empty()) == lines,
    decreases lines.len(),
{
    let rest = lines.drop_first();
    assert(render_spec(lines) == lines[0] + seq!['\n'] + render_spec(rest));
    lemma_split_first_line(lines[0], render_spec(rest), Seq::<char>::empty());
    assert(Seq::<char>::empty() + lines[0] =~= lines[0]);
    if rest.len() == 0 {
        assert(render_spec(rest) == Seq::<char>::empty());
        assert(split_rec(render_spec(rest), Seq::<char>::empty()) =~~= Seq::<Seq<char>>::empty());
        assert(split_rec(render_spec(lines), Seq::<char>::empty()) =~~= lines);
    } else {
        assert(newline_free(rest));
        lemma_split_render(rest);
        assert(split_rec(render_spec(lines), Seq::<char>::empty()) =~~= lines);
    }
}

/// Round trip: importing the rendered text of a newline-free document
/// reproduces that document exactly, lines and count alike, and puts the
/// cursor and scroll back at the origin.
pub proof fn lemma_import_render_round_trip(v: BufView)
    requires
        buf_wf(v),
        newline_free(v.lines),
    ensures
        import_spec(v, render_spec(v.lines)).lines == v.lines,
{
    lemma_split_render(v.lines);
    assert(parse_lines(render_spec(v.lines)) =~~= v.lines);
}

} // verus!
