use tgt_dispatch::action::Action;
use tgt_dispatch::chat_window::ChatWindow;
use tgt_dispatch::chord::{ChordResolver, ChordState};
use tgt_dispatch::core_window::CoreWindow;
use tgt_dispatch::event::{Event, KeyCode, Modifiers, MouseInput, MouseKind};
use tgt_dispatch::keymap_raw::{compile_entries, KeymapEntry};
use tgt_dispatch::keymap_table::{ActionBinding, KeymapTable};
use tgt_dispatch::runtime::{render_pass, RenderPass, Runtime};

fn entry(keys: &[&str], command: &str) -> KeymapEntry {
    KeymapEntry {
        keys: keys.iter().map(|k| k.to_string()).collect(),
        command: command.to_string(),
        description: None,
    }
}

fn key(c: char) -> Event {
    Event::Key(KeyCode::Char(c), Modifiers::none())
}

fn key_action(c: char) -> Action {
    Action::Key(KeyCode::Char(c), Modifiers::none())
}

fn keymap() -> KeymapTable {
    compile_entries(&vec![entry(&["q"], "quit"), entry(&["g", "n"], "message_list_next")]).unwrap()
}

fn tree() -> CoreWindow {
    CoreWindow::new(vec![ChatWindow::new().with_name("Chat")])
}

fn drain(rt: &mut Runtime) -> Vec<Action> {
    let mut out = Vec::new();
    while let Some(a) = rt.next_action() {
        out.push(a);
    }
    out
}

#[test]
fn unbound_key_only_forwards_itself() {
    let mut rt = Runtime::new(keymap());
    let mut t = tree();
    t.focus_child(0);
    rt.handle_event(Some(key('x')), 0, &mut t);
    assert!(!rt.chord_pending());
    assert_eq!(drain(&mut rt), vec![key_action('x')]);
}

#[test]
fn bound_key_adds_its_action() {
    let mut rt = Runtime::new(keymap());
    let mut t = tree();
    rt.handle_event(Some(key('q')), 0, &mut t);
    assert_eq!(drain(&mut rt), vec![key_action('q'), Action::Quit]);
    assert!(rt.should_quit());
}

#[test]
fn structural_events_are_forwarded() {
    let mut rt = Runtime::new(keymap());
    let mut t = tree();
    rt.handle_event(Some(Event::Render), 0, &mut t);
    rt.handle_event(Some(Event::Resize(100, 40)), 0, &mut t);
    rt.handle_event(Some(Event::Paste("hi".to_string())), 0, &mut t);
    rt.handle_event(Some(Event::Tick), 0, &mut t);
    rt.handle_event(
        Some(Event::Mouse(MouseInput { kind: MouseKind::Down, column: 1, row: 2 })),
        0,
        &mut t,
    );
    rt.handle_event(None, 0, &mut t);
    assert_eq!(
        drain(&mut rt),
        vec![Action::Render, Action::Resize(100, 40), Action::Paste("hi".to_string())]
    );
}

#[test]
fn chord_completed_within_the_deadline() {
    let mut rt = Runtime::new(keymap());
    let mut t = tree();
    rt.handle_event(Some(key('g')), 10_000, &mut t);
    assert!(rt.chord_pending());
    assert_eq!(rt.chord_state(), ChordState::AwaitingChord);
    assert_eq!(rt.next_action(), None);
    rt.handle_event(Some(key('n')), 10_500, &mut t);
    assert_eq!(rt.chord_state(), ChordState::Completed);
    assert_eq!(drain(&mut rt), vec![key_action('g'), Action::MessageListNext]);
}

#[test]
fn chord_completed_after_the_deadline_sends_nothing() {
    let mut rt = Runtime::new(keymap());
    let mut t = tree();
    rt.handle_event(Some(key('g')), 10_000, &mut t);
    rt.handle_event(Some(key('n')), 11_000, &mut t);
    assert_eq!(rt.chord_state(), ChordState::TimedOut);
    assert_eq!(drain(&mut rt), vec![key_action('g')]);
}

#[test]
fn chord_wait_discards_other_events_then_times_out() {
    let mut rt = Runtime::new(keymap());
    let mut t = tree();
    rt.handle_event(Some(key('g')), 0, &mut t);
    rt.handle_event(Some(key('x')), 200, &mut t);
    rt.handle_event(Some(Event::Render), 400, &mut t);
    rt.handle_event(None, 999, &mut t);
    assert!(rt.chord_pending());
    rt.handle_event(None, 1000, &mut t);
    assert!(!rt.chord_pending());
    assert_eq!(rt.chord_state(), ChordState::TimedOut);
    assert_eq!(drain(&mut rt), vec![key_action('g')]);
    rt.handle_event(Some(key('n')), 1100, &mut t);
    assert_eq!(drain(&mut rt), vec![key_action('n')]);
}

#[test]
fn resolver_steps() {
    let table = keymap();
    let sub = match table.get(tgt_dispatch::event::KeyPress {
        code: KeyCode::Char('g'),
        modifiers: Modifiers::none(),
    }) {
        Some(ActionBinding::Multiple(sub)) => sub,
        _ => panic!("expected a chord prefix"),
    };
    let mut r = ChordResolver::new();
    assert_eq!(r.current_state(), ChordState::Idle);
    r.start(sub, 5);
    assert_eq!(r.feed(&Some(key('z')), 6), None);
    assert_eq!(r.current_state(), ChordState::AwaitingChord);
    assert_eq!(r.feed(&Some(key('n')), 1004), Some(Action::MessageListNext));
    assert_eq!(r.current_state(), ChordState::Completed);
}

#[test]
fn drain_is_fifo_and_quit_lands_between_renders() {
    let mut rt = Runtime::new(KeymapTable::new());
    rt.send(Action::Render);
    rt.send(Action::Quit);
    rt.send(Action::Resize(80, 24));
    assert_eq!(rt.queued(), 3);

    let a = rt.next_action().unwrap();
    assert_eq!(a, Action::Render);
    assert_eq!(render_pass(&a), RenderPass::Draw);
    assert!(!rt.should_quit());

    let a = rt.next_action().unwrap();
    assert_eq!(a, Action::Quit);
    assert_eq!(render_pass(&a), RenderPass::Skip);
    assert!(rt.should_quit());

    let a = rt.next_action().unwrap();
    assert_eq!(a, Action::Resize(80, 24));
    assert_eq!(render_pass(&a), RenderPass::ResizeAndDraw(80, 24));
    assert!(rt.should_quit());
    assert_eq!(rt.next_action(), None);
}

#[test]
fn quit_flag_never_resets() {
    let mut rt = Runtime::new(KeymapTable::new());
    rt.send(Action::Quit);
    rt.send(Action::Quit);
    rt.send(Action::Render);
    drain(&mut rt);
    assert!(rt.should_quit());
}
