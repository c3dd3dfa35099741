use gemini::text_field::TextField;

#[test]
fn insert_mixed_width_tracks_both_coordinates() {
    let mut tf = TextField::new(String::new());
    tf.enter_char('A');
    tf.enter_char('中');
    tf.enter_char('B');
    assert_eq!(tf.get_content(), "A中B");
    assert_eq!(tf.input_buffer_index, 3);
    assert_eq!(tf.cursor_position_x, 4);
}

#[test]
fn visible_text_scrolls_to_keep_cursor() {
    let mut tf = TextField::new("abcdef".to_owned());
    tf.set_width_height(3, 1);
    assert_eq!(tf.cursor_position_x, 6);
    assert_eq!(tf.should_show_text(), "def");
}

#[test]
fn visible_text_shows_all_when_it_fits() {
    let mut tf = TextField::new("abc".to_owned());
    tf.set_width_height(10, 1);
    assert_eq!(tf.should_show_text(), "abc");
}

#[test]
fn first_resize_snaps_cursor_to_end_later_resizes_do_not() {
    let mut tf = TextField::new("hello".to_owned());
    assert_eq!(tf.input_buffer_index, 0);
    tf.set_width_height(20, 1);
    assert_eq!(tf.input_buffer_index, 5);
    tf.home_of_cursor();
    tf.set_width_height(10, 1);
    assert_eq!(tf.input_buffer_index, 0);
}

#[test]
fn move_left_and_right_cross_wide_chars() {
    let mut tf = TextField::new(String::new());
    tf.enter_char('a');
    tf.enter_char('中');
    tf.move_cursor_left();
    assert_eq!(tf.input_buffer_index, 1);
    assert_eq!(tf.cursor_position_x, 1);
    tf.move_cursor_left();
    assert_eq!(tf.input_buffer_index, 0);
    assert_eq!(tf.cursor_position_x, 0);
    tf.move_cursor_left();
    assert_eq!(tf.input_buffer_index, 0);
    tf.move_cursor_right();
    assert_eq!(tf.cursor_position_x, 1);
    tf.move_cursor_right();
    assert_eq!(tf.cursor_position_x, 3);
    tf.move_cursor_right();
    assert_eq!(tf.input_buffer_index, 2);
}

#[test]
fn delete_before_and_after_cursor() {
    let mut tf = TextField::new(String::new());
    tf.enter_char('a');
    tf.enter_char('b');
    tf.enter_char('c');
    tf.move_cursor_left();
    tf.delete_pre_char();
    assert_eq!(tf.get_content(), "ac");
    assert_eq!(tf.input_buffer_index, 1);
    tf.delete_suf_char();
    assert_eq!(tf.get_content(), "a");
    tf.delete_suf_char();
    assert_eq!(tf.get_content(), "a");
    tf.delete_pre_char();
    assert_eq!(tf.get_content(), "");
    tf.delete_pre_char();
    assert_eq!(tf.get_content(), "");
}

#[test]
fn current_and_next_char_at_boundaries() {
    let mut tf = TextField::new(String::new());
    assert_eq!(tf.get_current_char(), '\0');
    assert_eq!(tf.get_next_char(), '\0');
    tf.enter_char('x');
    assert_eq!(tf.get_current_char(), 'x');
    assert_eq!(tf.get_next_char(), '\0');
    tf.home_of_cursor();
    assert_eq!(tf.get_current_char(), '\0');
    assert_eq!(tf.get_next_char(), 'x');
}

#[test]
fn byte_index_counts_utf8_bytes() {
    let mut tf = TextField::new("你好".to_owned());
    assert_eq!(tf.byte_index(), 0);
    tf.move_cursor_right();
    assert_eq!(tf.byte_index(), 3);
    tf.move_cursor_right();
    assert_eq!(tf.byte_index(), 6);
}

#[test]
fn end_of_cursor_is_idempotent_in_effect() {
    let mut tf = TextField::new("a中b".to_owned());
    tf.end_of_cursor();
    let once = (tf.input_buffer_index, tf.cursor_position_x, tf.get_content());
    tf.end_of_cursor();
    let twice = (tf.input_buffer_index, tf.cursor_position_x, tf.get_content());
    assert_eq!(once, twice);
    assert_eq!(once.0, 3);
    assert_eq!(once.1, 4);
}

#[test]
fn clamp_cursor_limits_to_length() {
    let tf = TextField::new("abc".to_owned());
    assert_eq!(tf.clamp_cursor(2), 2);
    assert_eq!(tf.clamp_cursor(3), 3);
    assert_eq!(tf.clamp_cursor(99), 3);
}

#[test]
fn cursor_screen_position_subtracts_hidden_width() {
    let mut tf = TextField::new("abcdef".to_owned());
    tf.set_width_height(3, 1);
    // Three cells are hidden, the cursor sits on the window's last cell.
    assert_eq!(tf.get_cursor_position(), (3, 0));
    tf.home_of_cursor();
    assert_eq!(tf.get_cursor_position(), (0, 0));
}

#[test]
fn cursor_screen_position_with_straddling_wide_char() {
    let mut tf = TextField::new("中中中".to_owned());
    tf.set_width_height(3, 1);
    // The window shows the last character on cells 0..2; four cells are
    // hidden, so the cursor lands on cell 2, not one past the text.
    assert_eq!(tf.should_show_text(), "中");
    assert_eq!(tf.get_cursor_position(), (2, 0));
    let mut tg = TextField::new("中a".to_owned());
    tg.set_width_height(2, 1);
    assert_eq!(tg.get_cursor_position(), (1, 0));
}

#[test]
fn clear_resets_content_and_cursor() {
    let mut tf = TextField::new("abc".to_owned());
    tf.set_width_height(5, 1);
    tf.clear();
    assert_eq!(tf.get_content(), "");
    assert_eq!(tf.input_buffer_index, 0);
    assert_eq!(tf.cursor_position_x, 0);
    assert_eq!(tf.width, 5);
}

#[test]
fn wide_suffix_window_skips_straddling_char() {
    let mut tf = TextField::new("中中中".to_owned());
    tf.set_width_height(3, 1);
    assert_eq!(tf.cursor_position_x, 6);
    assert_eq!(tf.should_show_text(), "中");
}
