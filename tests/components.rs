use chat_tui::text::into_lines;
use chat_tui::cursor::Cursor;
use chat_tui::input::Input;
use chat_tui::stateful_list::StatefulList;

#[test]
fn cursor_stays_in_range() {
    let mut c = Cursor::default();
    c.left();
    assert_eq!(c.position, 0);
    c.right();
    assert_eq!(c.position, 0);
    c.update_input_length("héllo");
    assert_eq!(c.input_length, 5);
    c.right();
    c.right();
    assert_eq!(c.position, 2);
    c.move_to_end();
    assert_eq!(c.position, 5);
    c.right();
    assert_eq!(c.position, 5);
    c.update_input_length("ab");
    assert_eq!(c.position, 2);
    assert!(c.position <= c.input_length);
    c.move_to_start();
    assert!(c.is_at_start());
    c.reset();
    assert_eq!((c.position, c.input_length), (0, 0));
}

#[test]
fn cursor_clamp() {
    let c = Cursor { position: 1, input_length: 3 };
    assert_eq!(c.clamp(7), 3);
    assert_eq!(c.clamp(2), 2);
}

#[test]
fn input_insert_respects_capacity() {
    let mut i = Input::new(3);
    for ch in ['a', 'b', 'c', 'd', 'e'] {
        i.insert(ch);
        assert!(i.text.chars().count() <= 3);
    }
    assert_eq!(i.text, "abc");
    assert_eq!(i.cursor_position(), 3);
    i.insert('z');
    assert_eq!(i.text, "abc");
}

#[test]
fn input_insert_at_caret_multibyte() {
    let mut i = Input::new(10);
    i.insert('é');
    i.insert('b');
    i.left();
    i.insert('ü');
    assert_eq!(i.text, "éüb");
    assert_eq!(i.cursor_position(), 2);
}

#[test]
fn input_delete_at_start_is_noop() {
    let mut i = Input::new(10);
    i.delete();
    assert!(i.is_empty());
    assert_eq!(i.cursor_position(), 0);
    i.set_value("ab".to_string());
    i.left();
    i.left();
    i.delete();
    assert_eq!(i.text, "ab");
    assert_eq!(i.cursor_position(), 0);
}

#[test]
fn input_delete_before_caret() {
    let mut i = Input::new(10);
    i.set_value("abcd".to_string());
    i.delete();
    assert_eq!(i.text, "abc");
    assert_eq!(i.cursor_position(), 3);
    i.left();
    i.delete();
    assert_eq!(i.text, "ac");
    assert_eq!(i.cursor_position(), 1);
}

#[test]
fn input_set_value_truncates_by_characters() {
    let mut i = Input::new(3);
    i.set_value("ééééé".to_string());
    assert_eq!(i.text, "ééé");
    assert_eq!(i.cursor_position(), 3);
    i.clear();
    assert!(i.is_empty());
    assert_eq!(i.cursor_position(), 0);
}

#[test]
fn input_default_capacity() {
    let i = Input::default();
    assert_eq!(i.max_length, 250);
    assert!(i.is_empty());
}

#[test]
fn list_next_and_prev_wrap() {
    let mut l = StatefulList::with_items(vec![1, 2, 3]);
    l.select(2);
    l.next();
    assert_eq!(l.selected, Some(0));
    l.prev();
    assert_eq!(l.selected, Some(2));
    l.select(0);
    l.prev();
    assert_eq!(l.selected, Some(2));
}

#[test]
fn list_next_from_nothing_selects_first() {
    let mut l = StatefulList::with_items(vec!['a', 'b']);
    l.next();
    assert_eq!(l.selected, Some(0));
    l.unselect();
    l.prev();
    assert_eq!(l.selected, Some(0));
}

#[test]
fn list_select_out_of_range_is_ignored() {
    let mut l = StatefulList::with_items(vec![1, 2, 3]);
    l.select(1);
    l.select(3);
    assert_eq!(l.selected, Some(1));
    l.select(100);
    assert_eq!(l.selected, Some(1));
}

#[test]
fn list_empty_edges() {
    let mut l: StatefulList<u8> = StatefulList::with_items(vec![]);
    l.next();
    l.prev();
    l.select_first();
    assert_eq!(l.selected, None);
    l.select_last();
    assert_eq!(l.selected, None);
    assert_eq!(l.remove_selected(), None);
}

#[test]
fn list_select_first_and_last() {
    let mut l = StatefulList::with_items(vec![5, 6, 7]);
    l.select_last();
    assert_eq!(l.selected, Some(2));
    l.select_first();
    assert_eq!(l.selected, Some(0));
}

#[test]
fn list_remove_selected_moves_back() {
    let mut l = StatefulList::with_items(vec![5, 6, 7]);
    l.select(1);
    assert_eq!(l.remove_selected(), Some(6));
    assert_eq!(l.items, vec![5, 7]);
    assert_eq!(l.selected, Some(0));
    assert_eq!(l.remove_selected(), Some(5));
    assert_eq!(l.items, vec![7]);
    assert_eq!(l.selected, Some(0));
    assert_eq!(l.remove_selected(), Some(7));
    assert_eq!(l.selected, None);
}

#[test]
fn into_lines_wraps_and_drops_overflowing_word() {
    assert_eq!(into_lines("aa bb cc", 4), vec!["aa bb".to_string()]);
    assert_eq!(into_lines("hello world foo", 5), vec!["hello".to_string()]);
    assert!(into_lines("short", 80).is_empty());
    assert_eq!(into_lines("é é x", 3), vec!["é".to_string()]);
}
