use gemini::chat::{entry_height, entry_offsets, total_height, ChatMessage, ChatShowScrollProps,
    ScrollProps, Sender};
use gemini::surface::{compose, extract_window, wrap_message};

fn msg(text: &str, sender: Sender) -> ChatMessage {
    ChatMessage {
        success: true,
        message: text.to_owned(),
        sender,
        date_time: "2024-02-29 12:00:00".to_owned(),
    }
}

#[test]
fn entry_height_is_wrap_count_plus_chrome() {
    let m = msg("abcdef", Sender::Bot);
    assert_eq!(entry_height(&m, 5), 5);
    assert_eq!(entry_height(&m, 6), 4);
    let empty = msg("", Sender::User(String::new()));
    assert_eq!(entry_height(&empty, 5), 4);
}

#[test]
fn never_entries_are_invisible() {
    let m = msg("whatever", Sender::Never);
    assert_eq!(entry_height(&m, 5), 0);
}

#[test]
fn total_height_sums_entries() {
    let history = vec![
        msg("", Sender::Bot),
        msg("abcdef", Sender::Bot),
        msg("x", Sender::Never),
    ];
    assert_eq!(total_height(&history, 5), 4 + 5 + 0);
}

#[test]
fn entry_offsets_are_prefix_sums() {
    let history = vec![
        msg("", Sender::Bot),
        msg("x", Sender::Never),
        msg("abcdef", Sender::Bot),
    ];
    let offs = entry_offsets(&history, 5);
    assert_eq!(offs, vec![0, 4, 4]);
}

#[test]
fn scroll_down_saturates_at_hidden_rows() {
    let mut s = ChatShowScrollProps::new();
    s.chat_history_area_height = 9;
    s.scroll_to_bottom(5);
    assert_eq!(s.scroll_offset, 4);
    s.down(5);
    s.down(5);
    s.down(5);
    assert_eq!(s.scroll_offset, 4);
}

#[test]
fn scroll_up_saturates_at_zero() {
    let mut s = ChatShowScrollProps::new();
    s.chat_history_area_height = 9;
    s.up();
    assert_eq!(s.scroll_offset, 0);
    s.down(5);
    assert_eq!(s.scroll_offset, 1);
    s.up();
    s.up();
    assert_eq!(s.scroll_offset, 0);
}

#[test]
fn short_content_never_scrolls() {
    let mut s = ChatShowScrollProps::new();
    s.chat_history_area_height = 3;
    assert_eq!(s.max_scroll_offset(5), 0);
    s.down(5);
    assert_eq!(s.scroll_offset, 0);
}

#[test]
fn scroll_props_mirror_the_same_policy() {
    let mut s = ScrollProps::new();
    s.chat_history_area_height = 9;
    for _ in 0..20 {
        s.down(5);
    }
    assert_eq!(s.scroll_offset, 4);
    for _ in 0..20 {
        s.up();
    }
    assert_eq!(s.scroll_offset, 0);
}

#[test]
fn rebuild_height_recomputes_from_entries() {
    let mut s = ChatShowScrollProps::new();
    s.chat_history.push(msg("abcdef", Sender::Bot));
    s.rebuild_height(5);
    assert_eq!(s.chat_history_area_height, 5);
}

#[test]
fn scrollbar_reports_clamped_position_and_range() {
    let mut s = ChatShowScrollProps::new();
    s.chat_history_area_height = 9;
    s.scroll_offset = 7;
    assert_eq!(s.scrollbar(5), (4, 4));
    s.scroll_offset = 2;
    assert_eq!(s.scrollbar(5), (2, 4));
}

fn row(text: &str) -> Vec<char> {
    text.chars().collect()
}

#[test]
fn compose_lays_entries_out_with_no_gaps() {
    let history = vec![msg("abcdef", Sender::Bot)];
    let grid = compose(&history, 5, 3);
    assert_eq!(grid.len(), 5);
    assert_eq!(grid[0], row("Bot"));
    assert_eq!(grid[1], row("abcde"));
    assert_eq!(grid[2], row("f"));
    assert_eq!(grid[3], row(""));
    assert_eq!(grid[4], row("2024-02-29 12:00:00"));
}

#[test]
fn compose_pads_to_visible_height() {
    let history = vec![msg("x", Sender::Never)];
    let grid = compose(&history, 5, 4);
    assert_eq!(grid.len(), 4);
    for r in &grid {
        assert!(r.is_empty());
    }
}

#[test]
fn extract_window_pads_and_clamps() {
    let history = vec![msg("abcdef", Sender::Bot)];
    let grid = compose(&history, 5, 3);
    let win = extract_window(&grid, 1, 3, 5);
    assert_eq!(win.len(), 3);
    assert_eq!(win[0], row("abcde"));
    assert_eq!(win[1], row("f    "));
    assert_eq!(win[2], row("     "));
    let tail = extract_window(&grid, 4, 1, 8);
    assert_eq!(tail[0], row("2024-02-"));
    let below = extract_window(&grid, 100, 2, 3);
    assert_eq!(below, vec![row("   "), row("   ")]);
}

#[test]
fn wrap_message_wraps_like_the_buffers() {
    let m = "abcdef".to_owned();
    assert_eq!(wrap_message(&m, 5), vec!["abcde".to_owned(), "f".to_owned()]);
    let n = "ab\ncd".to_owned();
    assert_eq!(wrap_message(&n, 10), vec!["ab".to_owned(), "cd".to_owned()]);
}
