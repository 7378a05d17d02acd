use txtbuffer::buffer::TextBuffer;
use txtbuffer::geom::Rect;

fn wide_buffer() -> TextBuffer {
    let mut b = TextBuffer::new();
    b.set_text_area(Rect::new(0, 0, 80, 24));
    b
}

#[test]
fn render_terminates_every_line() {
    let mut b = wide_buffer();
    b.import("a\nbb\nccc");
    assert_eq!(b.to_string(), "a\nbb\nccc\n");
}

#[test]
fn import_of_rendered_text_round_trips() {
    let mut b = wide_buffer();
    b.cursor_insert('h');
    b.cursor_insert('i');
    b.new_line();
    for c in "there".chars() {
        b.cursor_insert(c);
    }
    let rendered = b.to_string();
    let mut c = wide_buffer();
    c.import(&rendered);
    assert_eq!(c.lines(), b.lines());
    assert_eq!(c.to_string(), rendered);
}

#[test]
fn import_empty_text_gives_one_empty_line() {
    let mut b = wide_buffer();
    b.import("");
    assert_eq!(b.lines(), 1);
    assert_eq!(b.to_string(), "\n");
}

#[test]
fn import_without_trailing_newline() {
    let mut b = wide_buffer();
    b.import("a\nb");
    assert_eq!(b.lines(), 2);
    assert_eq!(b.to_string(), "a\nb\n");
}

#[test]
fn import_with_trailing_newline() {
    let mut b = wide_buffer();
    b.import("a\nb\n");
    assert_eq!(b.lines(), 2);
    assert_eq!(b.to_string(), "a\nb\n");
}

#[test]
fn import_keeps_blank_lines() {
    let mut b = wide_buffer();
    b.import("\n\n");
    assert_eq!(b.lines(), 2);
    assert_eq!(b.to_string(), "\n\n");
}

#[test]
fn import_resets_cursor_and_scroll() {
    let mut b = TextBuffer::new();
    b.set_text_area(Rect::new(0, 0, 3, 2));
    b.import("abcdefgh\nx\ny\nz");
    for _ in 0..8 {
        b.mov_cursor_right();
    }
    b.import("ab");
    assert_eq!(b.get_cursor_pos(), (0, 0));
    assert_eq!(b.get_scroll(), (0, 0));
}

#[test]
fn gutter_right_aligns_numbers() {
    let mut b = wide_buffer();
    b.import("a\nb\nc");
    assert_eq!(b.render_gutter(2), " 1  :\n 2  :\n 3  :\n");
}

#[test]
fn gutter_keeps_wide_numbers_whole() {
    let mut b = wide_buffer();
    for _ in 0..11 {
        b.push_new_line();
    }
    assert_eq!(b.lines(), 12);
    let gutter = b.render_gutter(1);
    let expected = "1  :\n2  :\n3  :\n4  :\n5  :\n6  :\n7  :\n8  :\n9  :\n10  :\n11  :\n12  :\n";
    assert_eq!(gutter, expected);
}

#[test]
fn gutter_with_zero_width_has_no_padding() {
    let b = wide_buffer();
    assert_eq!(b.render_gutter(0), "1  :\n");
}
