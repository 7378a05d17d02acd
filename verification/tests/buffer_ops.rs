use txtbuffer::buffer::TextBuffer;
use txtbuffer::geom::Rect;

fn wide_buffer() -> TextBuffer {
    let mut b = TextBuffer::new();
    b.set_text_area(Rect::new(0, 0, 80, 24));
    b
}

#[test]
fn new_starts_with_one_empty_line() {
    let b = TextBuffer::new();
    assert_eq!(b.lines(), 1);
    assert_eq!(b.to_string(), "\n");
    assert_eq!(b.get_cursor_pos(), (0, 0));
    assert_eq!(b.get_scroll(), (0, 0));
}

#[test]
fn typing_scenario() {
    let mut b = wide_buffer();
    b.cursor_insert('h');
    b.cursor_insert('i');
    b.new_line();
    for c in "there".chars() {
        b.cursor_insert(c);
    }
    assert_eq!(b.to_string(), "hi\nthere\n");
    assert_eq!(b.lines(), 2);
}

#[test]
fn backspace_at_origin_is_noop() {
    let mut b = wide_buffer();
    b.cursor_back_del();
    assert_eq!(b.lines(), 1);
    assert_eq!(b.to_string(), "\n");
    assert_eq!(b.get_cursor_pos(), (0, 0));
    assert_eq!(b.get_scroll(), (0, 0));
}

#[test]
fn split_then_backspace_restores_line() {
    let mut b = wide_buffer();
    for c in "abcdef".chars() {
        b.cursor_insert(c);
    }
    b.mov_cursor_sol();
    b.mov_cursor_right();
    b.mov_cursor_right();
    b.mov_cursor_right();
    b.new_line();
    assert_eq!(b.to_string(), "abc\ndef\n");
    b.cursor_back_del();
    assert_eq!(b.to_string(), "abcdef\n");
    assert_eq!(b.lines(), 1);
    assert_eq!(b.get_cursor_pos(), (3, 0));
}

#[test]
fn scroll_follows_cursor_to_the_right() {
    let mut b = TextBuffer::new();
    b.set_text_area(Rect::new(0, 0, 5, 5));
    b.import("abcdefgh");
    for _ in 0..8 {
        b.mov_cursor_right();
        let (x, _) = b.get_cursor_pos();
        assert!(x < 5);
    }
    assert_eq!(b.get_cursor_pos(), (4, 0));
    assert_eq!(b.get_scroll(), (0, 4));
}

#[test]
fn scroll_follows_cursor_back_to_the_left() {
    let mut b = TextBuffer::new();
    b.set_text_area(Rect::new(0, 0, 5, 5));
    b.import("abcdefgh");
    for _ in 0..8 {
        b.mov_cursor_right();
    }
    for _ in 0..8 {
        b.mov_cursor_left();
        let (x, _) = b.get_cursor_pos();
        assert!(x < 5);
    }
    assert_eq!(b.get_cursor_pos(), (0, 0));
    assert_eq!(b.get_scroll(), (0, 0));
}

#[test]
fn moving_down_onto_shorter_line_clamps_column() {
    let mut b = wide_buffer();
    b.import("abcdefgh\nab");
    b.mov_cursor_eol();
    assert_eq!(b.get_cursor_pos(), (8, 0));
    b.mov_cursor_down();
    assert_eq!(b.get_cursor_pos(), (2, 1));
    b.cursor_insert('X');
    assert_eq!(b.to_string(), "abcdefgh\nabX\n");
}

#[test]
fn moving_up_onto_shorter_line_clamps_column() {
    let mut b = wide_buffer();
    b.import("ab\nabcdefgh");
    b.mov_cursor_down();
    b.mov_cursor_eol();
    b.mov_cursor_up();
    assert_eq!(b.get_cursor_pos(), (2, 0));
}

#[test]
fn move_to_line_start_is_idempotent() {
    let mut once = wide_buffer();
    once.import("abcdef");
    let mut twice = wide_buffer();
    twice.import("abcdef");
    for b in [&mut once, &mut twice] {
        b.mov_cursor_eol();
    }
    once.mov_cursor_sol();
    twice.mov_cursor_sol();
    twice.mov_cursor_sol();
    assert_eq!(once.get_cursor_pos(), twice.get_cursor_pos());
    assert_eq!(once.get_scroll(), twice.get_scroll());
    assert_eq!(once.to_string(), twice.to_string());
}

#[test]
fn scroll_up_at_top_is_noop() {
    let mut b = wide_buffer();
    b.import("a\nb\nc");
    assert_eq!(b.get_scroll(), (0, 0));
    b.scroll_up();
    assert_eq!(b.get_scroll(), (0, 0));
    assert_eq!(b.get_cursor_pos(), (0, 0));
    assert_eq!(b.to_string(), "a\nb\nc\n");
}

#[test]
fn movement_stops_at_document_edges() {
    let mut b = wide_buffer();
    b.import("ab");
    b.mov_cursor_left();
    assert_eq!(b.get_cursor_pos(), (0, 0));
    b.mov_cursor_up();
    assert_eq!(b.get_cursor_pos(), (0, 0));
    b.mov_cursor_down();
    assert_eq!(b.get_cursor_pos(), (0, 0));
    b.mov_cursor_eol();
    b.mov_cursor_right();
    assert_eq!(b.get_cursor_pos(), (2, 0));
}

#[test]
fn delete_forward_removes_character_at_cursor() {
    let mut b = wide_buffer();
    b.import("abc");
    b.mov_cursor_right();
    b.cursor_del();
    assert_eq!(b.to_string(), "ac\n");
    assert_eq!(b.get_cursor_pos(), (1, 0));
}

#[test]
fn delete_forward_removes_empty_line_with_successor() {
    let mut b = wide_buffer();
    b.import("\nabc");
    b.cursor_del();
    assert_eq!(b.to_string(), "abc\n");
    assert_eq!(b.lines(), 1);
}

#[test]
fn delete_forward_at_end_of_last_line_is_noop() {
    let mut b = wide_buffer();
    b.import("abc");
    b.mov_cursor_eol();
    b.cursor_del();
    assert_eq!(b.to_string(), "abc\n");
}

#[test]
fn backspace_merges_with_previous_line() {
    let mut b = wide_buffer();
    b.import("ab\ncd");
    b.mov_cursor_down();
    b.cursor_back_del();
    assert_eq!(b.to_string(), "abcd\n");
    assert_eq!(b.get_cursor_pos(), (2, 0));
    b.cursor_insert('X');
    assert_eq!(b.to_string(), "abXcd\n");
}

#[test]
fn backspace_removes_previous_character() {
    let mut b = wide_buffer();
    b.import("abc");
    b.mov_cursor_eol();
    b.cursor_back_del();
    assert_eq!(b.to_string(), "ab\n");
    assert_eq!(b.get_cursor_pos(), (2, 0));
}

#[test]
fn tab_inserts_four_spaces() {
    let mut b = wide_buffer();
    b.cursor_insert('a');
    b.cursor_tab();
    assert_eq!(b.to_string(), "a    \n");
    assert_eq!(b.get_cursor_pos(), (5, 0));
}

#[test]
fn tab_keeps_cursor_visible_in_narrow_viewport() {
    let mut b = TextBuffer::new();
    b.set_text_area(Rect::new(0, 0, 3, 3));
    b.cursor_tab();
    let (x, _) = b.get_cursor_pos();
    assert!(x < 3);
    assert_eq!(b.to_string(), "    \n");
}

#[test]
fn push_line_appends_at_end() {
    let mut b = wide_buffer();
    b.push_line(String::from("hello"));
    assert_eq!(b.lines(), 2);
    assert_eq!(b.to_string(), "\nhello\n");
}

#[test]
fn push_new_line_appends_empty_line() {
    let mut b = wide_buffer();
    b.push_new_line();
    assert_eq!(b.lines(), 2);
    assert_eq!(b.to_string(), "\n\n");
}

#[test]
fn get_line_returns_line_contents() {
    let mut b = wide_buffer();
    b.import("ab\ncd");
    let expected: Vec<char> = "cd".chars().collect();
    assert_eq!(b.get_line(1), &expected);
}

#[test]
fn clear_resets_everything() {
    let mut b = wide_buffer();
    b.import("ab\ncd");
    b.mov_cursor_down();
    b.clear();
    assert_eq!(b.lines(), 1);
    assert_eq!(b.to_string(), "\n");
    assert_eq!(b.get_cursor_pos(), (0, 0));
    assert_eq!(b.get_scroll(), (0, 0));
}

#[test]
fn degenerate_viewport_stays_safe() {
    let mut b = TextBuffer::new();
    b.set_text_area(Rect::new(0, 0, 0, 0));
    b.cursor_insert('a');
    b.cursor_insert('b');
    b.mov_cursor_down();
    b.mov_cursor_up();
    b.mov_cursor_left();
    b.scroll_right();
    b.scroll_down();
    assert_eq!(b.to_string(), "ab\n");
    let (x, y) = b.get_cursor_pos();
    assert!(x <= 1 && y == 0);
}

#[test]
fn viewport_shrink_pulls_cursor_back_into_view() {
    let mut b = wide_buffer();
    b.import("abcdefghij");
    for _ in 0..10 {
        b.mov_cursor_right();
    }
    assert_eq!(b.get_cursor_pos(), (10, 0));
    b.set_text_area(Rect::new(0, 0, 4, 2));
    let (x, y) = b.get_cursor_pos();
    assert!(x < 4);
    assert!(y < 2);
}

#[test]
fn viewport_offset_shifts_screen_position() {
    let mut b = TextBuffer::new();
    b.set_text_area(Rect::new(7, 3, 20, 10));
    b.cursor_insert('a');
    assert_eq!(b.get_cursor_pos(), (8, 3));
}

#[test]
fn manual_scroll_right_drags_cursor_along() {
    let mut b = TextBuffer::new();
    b.set_text_area(Rect::new(0, 0, 4, 4));
    b.import("abcdefgh");
    b.scroll_right();
    let (x, _) = b.get_cursor_pos();
    assert_eq!(b.get_scroll(), (0, 1));
    assert_eq!(x, 0);
}

#[test]
fn manual_scroll_down_drags_cursor_along() {
    let mut b = TextBuffer::new();
    b.set_text_area(Rect::new(0, 0, 4, 2));
    b.import("a\nb\nc\nd");
    b.scroll_down();
    assert_eq!(b.get_scroll(), (1, 0));
    let (_, y) = b.get_cursor_pos();
    assert_eq!(y, 0);
}

#[test]
fn scroll_right_stops_at_line_end() {
    let mut b = TextBuffer::new();
    b.set_text_area(Rect::new(0, 0, 4, 4));
    b.import("ab");
    b.scroll_right();
    assert_eq!(b.get_scroll(), (0, 0));
}

#[test]
fn scroll_tracking_during_typing() {
    let mut b = TextBuffer::new();
    b.set_text_area(Rect::new(0, 0, 3, 3));
    for c in "abcde".chars() {
        b.cursor_insert(c);
    }
    assert_eq!(b.get_scroll(), (0, 3));
    assert_eq!(b.get_cursor_pos(), (2, 0));
}
