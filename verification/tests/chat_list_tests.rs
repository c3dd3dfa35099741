use gemini::chat_list::ChatItemListScrollProps;

#[test]
fn selection_moves_and_scrolls_to_stay_visible() {
    let mut list = ChatItemListScrollProps::new();
    list.rebuild(5, 6);
    assert_eq!(list.selected_conversation, 0);
    list.next_item();
    assert_eq!(list.selected_conversation, 1);
    assert_eq!(list.scroll_offset, 0);
    list.next_item();
    // The third item's bottom row falls below the six visible rows.
    assert_eq!(list.selected_conversation, 2);
    assert_eq!(list.scroll_offset, 3);
    list.prev_item();
    assert_eq!(list.selected_conversation, 1);
    assert_eq!(list.scroll_offset, 3);
    list.prev_item();
    assert_eq!(list.selected_conversation, 0);
    assert_eq!(list.scroll_offset, 0);
    list.prev_item();
    assert_eq!(list.selected_conversation, 0);
}

#[test]
fn selection_stops_at_the_last_item() {
    let mut list = ChatItemListScrollProps::new();
    list.rebuild(2, 20);
    list.next_item();
    list.next_item();
    list.next_item();
    assert_eq!(list.selected_conversation, 1);
}

#[test]
fn delete_steps_selection_back() {
    let mut list = ChatItemListScrollProps::new();
    list.rebuild(3, 20);
    list.next_item();
    list.next_item();
    assert_eq!(list.selected_conversation, 2);
    assert!(list.delete_item());
    assert_eq!(list.item_count, 2);
    assert_eq!(list.selected_conversation, 1);
    assert!(list.delete_item());
    assert!(list.delete_item());
    assert_eq!(list.item_count, 0);
    assert_eq!(list.selected_conversation, 0);
    assert!(!list.delete_item());
}

#[test]
fn rebuild_clamps_selection_and_offset() {
    let mut list = ChatItemListScrollProps::new();
    list.rebuild(5, 6);
    list.next_item();
    list.next_item();
    list.next_item();
    assert_eq!(list.selected_conversation, 3);
    assert_eq!(list.scroll_offset, 6);
    list.rebuild(2, 6);
    assert_eq!(list.selected_conversation, 1);
    assert_eq!(list.scroll_offset, 6);
    list.rebuild(1, 6);
    assert_eq!(list.scroll_offset, 3);
}
