use chat_tui::input::Input;
use chat_tui::models::{Chat, Message, Role};
use chat_tui::state::{Action, App, GatewayError, Modal, Section, SectionStatus};
use chat_tui::stateful_list::StatefulList;
use chat_tui::text::trim_spaces;

fn app_with(chats: Vec<Chat>) -> App {
    App {
        loading: false,
        active_chat_idx: None,
        chats: StatefulList::with_items(chats),
        input: Input::default(),
        modal_input: Input::default(),
        section: Section::Chats,
        focus: None,
        modal: None,
    }
}

fn type_text(app: &mut App, s: &str) {
    for c in s.chars() {
        assert!(app.dispatch(Action::Char(c)).is_none());
    }
}

#[test]
fn end_to_end_demo_chat() {
    let mut app = app_with(vec![Chat::new("Demo")]);
    assert!(app.dispatch(Action::Enter).is_none());
    assert_eq!(app.focus, Some(Section::Chats));
    assert_eq!(app.chats.selected, Some(0));
    assert!(app.dispatch(Action::Enter).is_none());
    assert_eq!(app.active_chat_idx, Some(0));
    assert_eq!(app.focus, Some(Section::Input));
    type_text(&mut app, "hi");
    assert!(!app.loading);
    let sub = app.dispatch(Action::Enter).expect("a request");
    assert!(app.loading);
    assert!(app.input.is_empty());
    assert_eq!(sub.chat_idx, 0);
    assert_eq!(sub.history.len(), 1);
    assert_eq!(sub.history[0].content, "hi");
    assert_eq!(app.chats.items[0].messages.items.len(), 1);
    assert_eq!(app.chats.items[0].messages.items[0].role, Role::User);
    assert_eq!(app.chats.items[0].messages.items[0].content, "hi");
    assert!(app.complete_submission(sub.chat_idx, Ok(None)).is_ok());
    assert!(!app.loading);
    assert_eq!(app.chats.items[0].messages.items.len(), 1);
}

#[test]
fn reply_is_appended_as_assistant() {
    let mut app = app_with(vec![Chat::new("Demo")]);
    app.dispatch(Action::Enter);
    app.dispatch(Action::Enter);
    type_text(&mut app, "  hello there ");
    let sub = app.dispatch(Action::Enter).expect("a request");
    assert_eq!(app.chats.items[0].messages.items[0].content, "hello there");
    assert!(app.complete_submission(sub.chat_idx, Ok(Some("hi!".to_string()))).is_ok());
    assert!(!app.loading);
    let msgs = &app.chats.items[0].messages.items;
    assert_eq!(msgs.len(), 2);
    assert_eq!(msgs[1].role, Role::Assistant);
    assert_eq!(msgs[1].content, "hi!");
}

#[test]
fn gateway_error_clears_loading() {
    let mut app = app_with(vec![Chat::new("Demo")]);
    app.dispatch(Action::Enter);
    app.dispatch(Action::Enter);
    type_text(&mut app, "x");
    let sub = app.dispatch(Action::Enter).expect("a request");
    assert!(app.loading);
    let err = GatewayError { message: "rate limited".to_string() };
    let r = app.complete_submission(sub.chat_idx, Err(err));
    assert_eq!(r.unwrap_err().message, "rate limited");
    assert!(!app.loading);
    assert_eq!(app.chats.items[0].messages.items.len(), 1);
}

#[test]
fn empty_submit_changes_nothing() {
    let mut app = app_with(vec![Chat::new("Demo")]);
    app.dispatch(Action::Enter);
    app.dispatch(Action::Enter);
    assert!(app.dispatch(Action::Enter).is_none());
    assert!(!app.loading);
    assert!(app.chats.items[0].messages.items.is_empty());
}

#[test]
fn submit_without_active_chat_drops_text() {
    let mut app = app_with(vec![Chat::new("Demo")]);
    app.focus(Section::Input);
    type_text(&mut app, "lost");
    assert!(app.dispatch(Action::Enter).is_none());
    assert!(!app.loading);
    assert!(app.input.is_empty());
    assert!(app.chats.items[0].messages.items.is_empty());
}

#[test]
fn deleting_last_chat_unselects() {
    let mut app = app_with(vec![Chat::new("Only")]);
    app.dispatch(Action::Enter);
    assert_eq!(app.chats.selected, Some(0));
    app.dispatch(Action::Backspace);
    assert!(app.chats.items.is_empty());
    assert_eq!(app.chats.selected, None);
    app.dispatch(Action::Down);
    app.dispatch(Action::Backspace);
    assert_eq!(app.chats.selected, None);
}

#[test]
fn deleting_first_chat_selects_last() {
    let mut app = app_with(vec![Chat::new("a"), Chat::new("b"), Chat::new("c")]);
    app.dispatch(Action::Enter);
    app.dispatch(Action::Backspace);
    assert_eq!(app.chats.items.len(), 2);
    assert_eq!(app.chats.items[0].title, "b");
    assert_eq!(app.chats.selected, Some(1));
}

#[test]
fn new_chat_modal_creates_and_selects() {
    let mut app = app_with(vec![Chat::new("Demo")]);
    app.dispatch(Action::Enter);
    app.dispatch(Action::Char('n'));
    assert_eq!(app.modal, Some(Modal::NewChat));
    assert_eq!(app.focus, Some(Section::Modal));
    assert!(app.modal_input.is_empty());
    type_text(&mut app, "Work");
    app.dispatch(Action::Backspace);
    app.dispatch(Action::Enter);
    assert_eq!(app.modal, None);
    assert_eq!(app.focus, Some(Section::Chats));
    assert_eq!(app.chats.items.len(), 2);
    assert_eq!(app.chats.items[1].title, "Wor");
    assert_eq!(app.chats.selected, Some(1));
    assert!(app.modal_input.is_empty());
}

#[test]
fn escape_from_modal_reselects_active_chat() {
    let mut app = app_with(vec![Chat::new("a"), Chat::new("b")]);
    app.dispatch(Action::Enter);
    app.dispatch(Action::Down);
    app.dispatch(Action::Enter);
    assert_eq!(app.active_chat_idx, Some(1));
    app.focus(Section::Messages);
    app.dispatch(Action::Char('r'));
    assert_eq!(app.modal, Some(Modal::RenameChat));
    assert_eq!(app.modal_input.text, "b");
    app.chats.select(0);
    app.dispatch(Action::Esc);
    assert_eq!(app.modal, None);
    assert_eq!(app.focus, Some(Section::Chats));
    assert_eq!(app.section, Section::Chats);
    assert_eq!(app.chats.selected, Some(1));
    assert!(app.modal_input.is_empty());
    assert_eq!(app.chats.items[1].title, "b");
}

#[test]
fn rename_modal_renames_active_chat() {
    let mut app = app_with(vec![Chat::new("a"), Chat::new("b")]);
    app.dispatch(Action::Enter);
    app.dispatch(Action::Enter);
    app.focus(Section::Messages);
    app.dispatch(Action::Char('r'));
    app.dispatch(Action::Backspace);
    type_text(&mut app, "first");
    app.dispatch(Action::Enter);
    assert_eq!(app.chats.items[0].title, "first");
    assert_eq!(app.modal, None);
    assert_eq!(app.focus, Some(Section::Chats));
}

#[test]
fn hover_navigation() {
    let mut app = app_with(vec![Chat::new("a")]);
    app.section = Section::Messages;
    app.dispatch(Action::Down);
    assert_eq!(app.section, Section::Input);
    assert_eq!(app.focus, None);
    app.dispatch(Action::Up);
    assert_eq!(app.section, Section::Messages);
    app.dispatch(Action::Char('i'));
    assert_eq!(app.focus, Some(Section::Input));
    app.dispatch(Action::Esc);
    assert_eq!(app.focus, None);
    assert_eq!(app.section, Section::Input);
    app.dispatch(Action::Char('m'));
    assert_eq!(app.focus, Some(Section::Messages));
    app.blur();
    app.dispatch(Action::Left);
    assert_eq!(app.focus, Some(Section::Chats));
    assert_eq!(app.section, Section::Chats);
}

#[test]
fn messages_panel_needs_active_chat() {
    let mut app = app_with(vec![Chat::with_messages("c", vec![Message::user("q"), Message::assistant("a")])]);
    app.focus(Section::Messages);
    app.dispatch(Action::Down);
    assert_eq!(app.chats.items[0].messages.selected, None);
    app.active_chat_idx = Some(0);
    app.dispatch(Action::Down);
    assert_eq!(app.chats.items[0].messages.selected, Some(0));
    app.dispatch(Action::Down);
    app.dispatch(Action::Backspace);
    assert_eq!(app.chats.items[0].messages.items.len(), 1);
    assert_eq!(app.chats.items[0].messages.items[0].content, "q");
    assert_eq!(app.chats.items[0].messages.selected, Some(0));
    app.dispatch(Action::Esc);
    assert_eq!(app.focus, None);
    assert_eq!(app.section, Section::Messages);
}

#[test]
fn section_status_and_focus_query() {
    let mut app = app_with(vec![]);
    app.section = Section::Messages;
    assert_eq!(app.section_status(Section::Messages), SectionStatus::Hovered);
    assert_eq!(app.section_status(Section::Chats), SectionStatus::Normal);
    app.focus(Section::Input);
    assert_eq!(app.section_status(Section::Input), SectionStatus::Focused);
    assert!(app.is_focused(Section::Input));
    assert!(!app.is_focused(Section::Chats));
}

#[test]
fn default_app_has_two_chats() {
    let app = App::default();
    assert_eq!(app.chats.items.len(), 2);
    assert_eq!(app.chats.items[0].title, "Demo");
    assert_eq!(app.chats.items[1].messages.items.len(), 2);
    assert_eq!(app.focus, Some(Section::Chats));
}

#[test]
fn get_active_chat_mut_edits_in_place() {
    let mut app = app_with(vec![Chat::new("a")]);
    assert!(app.get_active_chat_mut().is_none());
    app.active_chat_idx = Some(0);
    app.get_active_chat_mut().unwrap().title = "z".to_string();
    assert_eq!(app.chats.items[0].title, "z");
    app.active_chat_idx = Some(4);
    assert!(app.get_active_chat_mut().is_none());
}

#[test]
fn trim_spaces_removes_outer_whitespace() {
    assert_eq!(trim_spaces("  a b \n"), "a b");
    assert_eq!(trim_spaces(""), "");
    assert_eq!(trim_spaces(" \t "), "");
}

#[test]
fn ids_are_seven_alphanumerics() {
    let m = Message::user("x");
    assert_eq!(m.id.len(), 7);
    assert!(m.id.chars().all(|c| c.is_ascii_alphanumeric()));
    let c = Chat::new("t");
    assert_eq!(c.id.chars().count(), 7);
}

#[test]
fn role_names_round_trip() {
    assert_eq!(Role::User.to_string(), "user");
    assert_eq!(Role::Assistant.to_string(), "assistant");
    assert_eq!(Role::from_str("user"), Ok(Role::User));
    assert_eq!(Role::from_str("assistant"), Ok(Role::Assistant));
    assert!(Role::from_str("system").is_err());
}

#[test]
fn message_duplicate_is_equal() {
    let m = Message::assistant("hello");
    let d = m.duplicate();
    assert_eq!(d.id, m.id);
    assert_eq!(d.content, "hello");
    assert_eq!(d.role, Role::Assistant);
}

#[test]
fn deleting_active_chat_clears_active_index() {
    let mut app = app_with(vec![Chat::new("a"), Chat::new("b")]);
    app.active_chat_idx = Some(1);
    app.focus(Section::Chats);
    app.chats.select(1);
    app.dispatch(Action::Backspace);
    assert_eq!(app.active_chat_idx, None);
    assert_eq!(app.chats.items.len(), 1);
}

#[test]
fn deleting_earlier_chat_keeps_active_chat() {
    let mut app = App::default();
    app.active_chat_idx = Some(1);
    app.chats.select(0);
    app.dispatch(Action::Backspace);
    assert_eq!(app.chats.items.len(), 1);
    assert_eq!(app.active_chat_idx, Some(0));
    assert_eq!(app.chats.items[0].title, "Christmas");
}

#[test]
fn deleting_later_chat_keeps_active_index() {
    let mut app = app_with(vec![Chat::new("a"), Chat::new("b"), Chat::new("c")]);
    app.active_chat_idx = Some(0);
    app.focus(Section::Chats);
    app.chats.select(2);
    app.dispatch(Action::Backspace);
    assert_eq!(app.active_chat_idx, Some(0));
    assert_eq!(app.chats.items[0].title, "a");
}

#[test]
fn open_modal_while_modal_open_replaces_it() {
    let mut app = app_with(vec![Chat::new("a")]);
    app.open_modal(Modal::NewChat, None);
    app.open_modal(Modal::RenameChat, Some("abc".to_string()));
    assert_eq!(app.modal, Some(Modal::RenameChat));
    assert_eq!(app.focus, Some(Section::Modal));
    assert_eq!(app.modal_input.text, "abc");
}

#[test]
fn trim_spaces_unicode_white_space() {
    assert_eq!(trim_spaces("\u{3000}\u{a0}hi there\u{2028}\t"), "hi there");
    assert_eq!(trim_spaces("hi"), "hi");
    assert_eq!(trim_spaces("\u{85}\u{2000}"), "");
}
