use tgt_dispatch::action::Action;
use tgt_dispatch::chat_window::{ChatWindow, ItemLayout};
use tgt_dispatch::component::{Component, HandleFocus, HandleSmallArea};
use tgt_dispatch::core_window::CoreWindow;
use tgt_dispatch::event::{Event, KeyCode, Modifiers};
use tgt_dispatch::message_entry::{DateTimeEntry, MessageEntry, MessageSender, TimeLabel};

fn messages(n: i64) -> Vec<MessageEntry> {
    (0..n)
        .map(|i| MessageEntry::new(i, MessageSender::User(7), DateTimeEntry { timestamp: 0 }, false))
        .collect()
}

fn window(name: &str, n: i64) -> ChatWindow {
    let mut w = ChatWindow::new().with_name(name);
    w.set_messages(messages(n));
    w
}

#[test]
fn next_moves_towards_the_newest_and_stops() {
    let mut w = window("a", 3);
    assert_eq!(w.selected(), None);
    w.update(&Action::MessageListNext);
    assert_eq!(w.selected(), Some(0));
    w.update(&Action::MessageListNext);
    assert_eq!(w.selected(), Some(0));
}

#[test]
fn previous_moves_towards_the_oldest_and_stops() {
    let mut w = window("a", 3);
    w.update(&Action::MessageListPrevious);
    assert_eq!(w.selected(), Some(0));
    w.update(&Action::MessageListPrevious);
    w.update(&Action::MessageListPrevious);
    assert_eq!(w.selected(), Some(2));
    w.update(&Action::MessageListPrevious);
    assert_eq!(w.selected(), Some(2));
    w.update(&Action::MessageListNext);
    assert_eq!(w.selected(), Some(1));
    w.update(&Action::MessageListUnselect);
    assert_eq!(w.selected(), None);
}

#[test]
fn previous_on_an_empty_list_selects_the_first_slot() {
    let mut w = window("a", 0);
    w.update(&Action::MessageListPrevious);
    assert_eq!(w.selected(), Some(0));
    w.update(&Action::MessageListPrevious);
    assert_eq!(w.selected(), Some(0));
}

#[test]
fn window_flags() {
    let mut w = ChatWindow::new();
    assert_eq!(w.name(), "");
    w.focus();
    assert!(w.is_focused());
    w.unfocus();
    assert!(!w.is_focused());
    w.with_small_area(true);
    assert!(w.is_small_area());
    assert_eq!(w.handle_events(&Event::Key(KeyCode::Enter, Modifiers::none())), None);
}

#[test]
fn draw_plan_is_the_same_twice() {
    let mut w = window("Chat", 3);
    w.focus();
    w.update(&Action::MessageListPrevious);
    let a = w.draw_plan();
    let b = w.draw_plan();
    assert_eq!(a.title, "Chat");
    assert_eq!(a.title, b.title);
    assert_eq!(a.items, b.items);
    assert_eq!(a.selected, b.selected);
    assert_eq!(a.border_focused, b.border_focused);
    assert!(a.border_focused);
    assert_eq!(
        a.items,
        vec![
            ItemLayout { own_side: true },
            ItemLayout { own_side: false },
            ItemLayout { own_side: true }
        ]
    );
    assert_eq!(a.selected, Some(0));
}

#[test]
fn semantic_actions_reach_the_focused_child_only() {
    let mut t = CoreWindow::new(vec![window("a", 3), window("b", 3), window("c", 3)]);
    t.focus_child(1);
    assert_eq!(t.focused(), Some(1));
    assert!(t.child(1).is_focused());
    t.update(&Action::MessageListPrevious);
    assert_eq!(t.child(0).selected(), None);
    assert_eq!(t.child(1).selected(), Some(0));
    assert_eq!(t.child(2).selected(), None);
    t.focus_child(2);
    assert!(!t.child(1).is_focused());
    assert!(t.child(2).is_focused());
    t.update(&Action::MessageListNext);
    assert_eq!(t.child(1).selected(), Some(0));
    assert_eq!(t.child(2).selected(), Some(0));
    assert_eq!(t.child(0).selected(), None);
}

#[test]
fn structural_actions_reach_every_child() {
    let mut t = CoreWindow::new(vec![window("a", 2), window("b", 2)]);
    t.focus_child(0);
    t.update(&Action::Render);
    t.update(&Action::Resize(10, 10));
    assert_eq!(t.len(), 2);
    assert_eq!(t.child(1).name(), "b");
    assert_eq!(t.child(0).selected(), None);
}

#[test]
fn unfocused_tree_drops_semantic_actions() {
    let mut t = CoreWindow::new(vec![window("a", 2)]);
    t.update(&Action::MessageListPrevious);
    assert_eq!(t.child(0).selected(), None);
}

#[test]
fn message_text_round_trips() {
    let mut m = MessageEntry::new(1, MessageSender::Chat(-42), DateTimeEntry { timestamp: 5 }, false);
    assert_eq!(m.message_content_to_string(), "");
    m.set_message_content("hello\nworld\n", &vec![]);
    assert_eq!(m.message_content_to_string(), "hello\nworld\n");
    m.set_message_content("one line", &vec![]);
    assert_eq!(m.message_content_to_string(), "one line");
    assert_eq!(m.sender_id(), -42);
    assert_eq!(m.id(), 1);
    assert_eq!(m.timestamp().timestamp, 5);
    m.set_is_edited(true);
}

#[test]
fn user_sender_id() {
    let m = MessageEntry::new(3, MessageSender::User(99), DateTimeEntry { timestamp: 0 }, true);
    assert_eq!(m.sender_id(), 99);
}

#[test]
fn time_labels() {
    assert_eq!(DateTimeEntry::time_label(100, 100), TimeLabel::Today);
    assert_eq!(DateTimeEntry::time_label(99, 100), TimeLabel::Yesterday);
    assert_eq!(DateTimeEntry::time_label(98, 100), TimeLabel::Older);
    assert_eq!(DateTimeEntry::time_label(101, 100), TimeLabel::Older);
    assert_eq!(DateTimeEntry::time_label(i64::MAX, i64::MIN), TimeLabel::Older);
}

#[test]
fn small_area_reaches_every_child() {
    let mut t = CoreWindow::new(vec![window("a", 1), window("b", 1)]);
    t.focus_child(0);
    t.with_small_area(true);
    assert!(t.child(0).is_small_area());
    assert!(t.child(1).is_small_area());
    assert_eq!(t.focused(), Some(0));
    t.with_small_area(false);
    assert!(!t.child(1).is_small_area());
}

#[test]
fn new_window_holds_six_placeholders() {
    let w = ChatWindow::new();
    assert_eq!(w.message_count(), 6);
    assert_eq!(w.messages().len(), 6);
    for m in w.messages().iter() {
        assert_eq!(m.id(), 0);
        assert_eq!(m.sender_id(), 0);
        assert_eq!(m.timestamp().timestamp, 0);
        assert!(!m.is_edited());
        assert_eq!(m.message_content_to_string(), "");
    }
    assert_eq!(w.selected(), None);
    assert!(!w.is_focused());
    assert!(!w.is_small_area());
    assert_eq!(w.name(), "");
    assert_eq!(w.draw_plan().items.len(), 6);
}

#[test]
fn placeholders_bound_the_cursor() {
    let mut w = ChatWindow::new();
    for _ in 0..10 {
        w.update(&Action::MessageListPrevious);
    }
    assert_eq!(w.selected(), Some(5));
}

#[test]
fn header_marks() {
    let mut m = MessageEntry::new(1, MessageSender::User(1), DateTimeEntry { timestamp: 0 }, false);
    assert_eq!(m.edit_mark(), "");
    m.set_is_edited(true);
    assert_eq!(m.edit_mark(), "\u{270f}\u{fe0f}");
    assert_eq!(MessageEntry::unread_mark(Some(true)), "\u{1f4e4}");
    assert_eq!(MessageEntry::unread_mark(Some(false)), "\u{1f440}");
    assert_eq!(MessageEntry::unread_mark(None), "");
}
