use gemini::text_area::TextArea;

#[test]
fn wrap_splits_overflowing_line() {
    let mut ta = TextArea::new("abcdef".to_owned());
    ta.set_width_height(5, 10);
    assert_eq!(ta.should_show_text(), "abcde\nf");
    assert_eq!(ta.get_len_of_line(0), 5);
    assert_eq!(ta.get_len_of_line(1), 1);
    assert_eq!(ta.get_len_of_line(2), 0);
}

#[test]
fn exact_fit_adds_no_blank_line() {
    let mut ta = TextArea::new("abcde".to_owned());
    ta.set_width_height(5, 10);
    assert_eq!(ta.should_show_text(), "abcde");
}

#[test]
fn hard_newlines_always_break() {
    let mut ta = TextArea::new("ab\ncd".to_owned());
    ta.set_width_height(10, 10);
    assert_eq!(ta.should_show_text(), "ab\ncd");
    assert_eq!(ta.get_len_of_line(0), 2);
    assert_eq!(ta.get_len_of_line(1), 2);
}

#[test]
fn wide_chars_wrap_without_splitting() {
    let mut ta = TextArea::new("中中中".to_owned());
    ta.set_width_height(5, 10);
    // Two wide characters fill four of five cells; the third must start
    // the next line rather than be split across the boundary.
    assert_eq!(ta.should_show_text(), "中中\n中");
}

#[test]
fn first_measure_snaps_cursor_to_end() {
    let mut ta = TextArea::new("abc\nde".to_owned());
    assert_eq!(ta.input_buffer_index, 0);
    ta.set_width_height(10, 10);
    assert_eq!(ta.input_buffer_index, 6);
    assert_eq!(ta.cursor_position_y, 1);
    assert_eq!(ta.cursor_position_x, 2);
}

#[test]
fn resize_keeps_logical_cursor() {
    let mut ta = TextArea::new("abcdef".to_owned());
    ta.set_width_height(5, 10);
    assert_eq!(ta.input_buffer_index, 6);
    ta.set_width_height(3, 10);
    assert_eq!(ta.input_buffer_index, 6);
    assert_eq!(ta.cursor_position_y, 1);
    assert_eq!(ta.cursor_position_x, 3);
}

#[test]
fn cursor_row_and_column_follow_the_wrap() {
    let mut ta = TextArea::new("abcdef".to_owned());
    ta.set_width_height(5, 10);
    assert_eq!(ta.cursor_position_y, 1);
    assert_eq!(ta.cursor_position_x, 1);
    ta.move_cursor_left();
    // On the soft boundary the cursor sits at the end of the upper line.
    assert_eq!(ta.cursor_position_y, 0);
    assert_eq!(ta.cursor_position_x, 5);
    ta.move_cursor_left();
    assert_eq!(ta.cursor_position_y, 0);
    assert_eq!(ta.cursor_position_x, 4);
}

#[test]
fn enter_key_inserts_newline_once() {
    let mut ta = TextArea::new("ab".to_owned());
    ta.set_width_height(10, 10);
    ta.handle_enter_key();
    assert_eq!(ta.get_content(), "ab\n");
    ta.handle_enter_key();
    assert_eq!(ta.get_content(), "ab\n");
    ta.enter_char('c');
    assert_eq!(ta.get_content(), "ab\nc");
}

#[test]
fn delete_across_newline() {
    let mut ta = TextArea::new("ab\nc".to_owned());
    ta.set_width_height(10, 10);
    ta.home_of_cursor();
    assert_eq!(ta.input_buffer_index, 3);
    ta.delete_pre_char();
    assert_eq!(ta.get_content(), "abc");
    assert_eq!(ta.input_buffer_index, 2);
}

#[test]
fn home_and_end_work_on_hard_lines() {
    let mut ta = TextArea::new("abcd\nxy".to_owned());
    ta.set_width_height(2, 10);
    // Cursor ends at the buffer end; Home of the hard line jumps past the
    // soft wrap breaks to the position after the newline.
    ta.home_of_cursor();
    assert_eq!(ta.input_buffer_index, 5);
    ta.home_of_multiline();
    assert_eq!(ta.input_buffer_index, 0);
    ta.end_of_cursor();
    assert_eq!(ta.input_buffer_index, 4);
    ta.end_of_multiline();
    assert_eq!(ta.input_buffer_index, 7);
}

#[test]
fn end_of_multiline_is_idempotent_in_effect() {
    let mut ta = TextArea::new("abc\nd".to_owned());
    ta.set_width_height(4, 10);
    ta.home_of_multiline();
    ta.end_of_multiline();
    let once = (ta.input_buffer_index, ta.cursor_position_x, ta.cursor_position_y);
    ta.end_of_multiline();
    let twice = (ta.input_buffer_index, ta.cursor_position_x, ta.cursor_position_y);
    assert_eq!(once, twice);
}

#[test]
fn area_byte_index_counts_utf8_bytes() {
    let mut ta = TextArea::new("中a".to_owned());
    ta.set_width_height(10, 10);
    assert_eq!(ta.byte_index(), 4);
    ta.move_cursor_left();
    assert_eq!(ta.byte_index(), 3);
    ta.move_cursor_left();
    assert_eq!(ta.byte_index(), 0);
}

#[test]
fn clear_keeps_geometry_and_empties_content() {
    let mut ta = TextArea::new("abc".to_owned());
    ta.set_width_height(7, 4);
    ta.clear();
    assert_eq!(ta.get_content(), "");
    assert_eq!(ta.input_buffer_index, 0);
    assert_eq!(ta.cursor_position_x, 0);
    assert_eq!(ta.cursor_position_y, 0);
    assert_eq!(ta.width, 7);
    assert_eq!(ta.height, 4);
    ta.enter_char('z');
    assert_eq!(ta.get_content(), "z");
}

#[test]
fn rewrap_is_deterministic() {
    let mut a = TextArea::new("abcdefgh\n中中中".to_owned());
    let mut b = TextArea::new("abcdefgh\n中中中".to_owned());
    a.set_width_height(4, 10);
    b.set_width_height(4, 10);
    assert_eq!(a.should_show_text(), b.should_show_text());
}

#[test]
fn trailing_newline_yields_trailing_empty_line() {
    let mut ta = TextArea::new("ab\n".to_owned());
    ta.set_width_height(10, 10);
    assert_eq!(ta.should_show_text(), "ab\n");
    assert_eq!(ta.cursor_position_y, 1);
    assert_eq!(ta.cursor_position_x, 0);
}

#[test]
fn cursor_screen_position_is_clamped() {
    let mut ta = TextArea::new("abcdef\ng\nh\ni".to_owned());
    ta.set_width_height(3, 2);
    let (x, y) = ta.get_cursor_position();
    assert!(x <= 3);
    assert!(y <= 2);
}
