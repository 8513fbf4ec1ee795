use tgt_dispatch::action::Action;
use tgt_dispatch::event::{KeyCode, KeyPress, Modifiers};
use tgt_dispatch::keymap::{command_action, key_name, parse_key};
use tgt_dispatch::keymap_raw::{
    compile_entries, ConfigError, KeymapConfig, KeymapEntry, KeymapMode, KeymapRaw,
};
use tgt_dispatch::keymap_table::{ActionBinding, KeymapTable};

fn entry(keys: &[&str], command: &str) -> KeymapEntry {
    KeymapEntry {
        keys: keys.iter().map(|k| k.to_string()).collect(),
        command: command.to_string(),
        description: None,
    }
}

fn plain(c: char) -> KeyPress {
    KeyPress { code: KeyCode::Char(c), modifiers: Modifiers::none() }
}

fn single_action(t: &KeymapTable, k: KeyPress) -> Option<Action> {
    match t.get(k) {
        Some(ActionBinding::Single { action, .. }) => Some(action),
        _ => None,
    }
}

fn branch(t: &KeymapTable, k: KeyPress) -> Option<KeymapTable> {
    match t.get(k) {
        Some(ActionBinding::Multiple(sub)) => Some(sub),
        _ => None,
    }
}

#[test]
fn parses_plain_and_modified_keys() {
    assert_eq!(parse_key("q"), Some(plain('q')));
    assert_eq!(
        parse_key("ctrl+c"),
        Some(KeyPress {
            code: KeyCode::Char('c'),
            modifiers: Modifiers { control: true, alt: false, shift: false }
        })
    );
    assert_eq!(
        parse_key("ctrl+alt+enter"),
        Some(KeyPress {
            code: KeyCode::Enter,
            modifiers: Modifiers { control: true, alt: true, shift: false }
        })
    );
    assert_eq!(
        parse_key("shift+tab"),
        Some(KeyPress {
            code: KeyCode::Tab,
            modifiers: Modifiers { control: false, alt: false, shift: true }
        })
    );
    assert_eq!(parse_key("+"), Some(plain('+')));
}

#[test]
fn rejects_malformed_keys() {
    assert_eq!(parse_key(""), None);
    assert_eq!(parse_key("ctrl+"), None);
    assert_eq!(parse_key("hyper+x"), None);
    assert_eq!(parse_key("f13"), None);
    assert_eq!(parse_key("f0"), None);
}

#[test]
fn names_function_and_named_keys() {
    assert_eq!(key_name("f1"), Some(KeyCode::F(1)));
    assert_eq!(key_name("f12"), Some(KeyCode::F(12)));
    assert_eq!(key_name("esc"), Some(KeyCode::Esc));
    assert_eq!(key_name("space"), Some(KeyCode::Char(' ')));
    assert_eq!(key_name("pagedown"), Some(KeyCode::PageDown));
}

#[test]
fn resolves_command_names() {
    assert_eq!(command_action("quit"), Some(Action::Quit));
    assert_eq!(command_action("message_list_next"), Some(Action::MessageListNext));
    assert_eq!(command_action("message_list_unselect"), Some(Action::MessageListUnselect));
    assert_eq!(command_action("Quit"), None);
}

#[test]
fn single_key_binding_is_single() {
    let t = compile_entries(&vec![entry(&["q"], "quit")]).unwrap();
    assert_eq!(t.len(), 1);
    assert_eq!(single_action(&t, plain('q')), Some(Action::Quit));
    assert!(t.get(plain('x')).is_none());
}

#[test]
fn two_key_chord_builds_a_branch() {
    let t = compile_entries(&vec![entry(&["g", "n"], "message_list_next")]).unwrap();
    let sub = branch(&t, plain('g')).expect("a chord prefix");
    assert_eq!(single_action(&sub, plain('n')), Some(Action::MessageListNext));
    assert!(t.get(plain('n')).is_none());
}

#[test]
fn last_write_wins_on_a_path() {
    let t = compile_entries(&vec![entry(&["g"], "quit"), entry(&["g", "n"], "message_list_next")])
        .unwrap();
    assert_eq!(t.len(), 1);
    assert!(branch(&t, plain('g')).is_some());

    let t = compile_entries(&vec![entry(&["g", "n"], "message_list_next"), entry(&["g"], "quit")])
        .unwrap();
    assert_eq!(t.len(), 1);
    assert_eq!(single_action(&t, plain('g')), Some(Action::Quit));

    let t = compile_entries(&vec![entry(&["q"], "quit"), entry(&["q"], "render")]).unwrap();
    assert_eq!(t.len(), 1);
    assert_eq!(single_action(&t, plain('q')), Some(Action::Render));
}

#[test]
fn siblings_share_a_branch() {
    let t = compile_entries(&vec![
        entry(&["g", "n"], "message_list_next"),
        entry(&["g", "p"], "message_list_previous"),
        entry(&["q"], "quit"),
    ])
    .unwrap();
    assert_eq!(t.len(), 3);
    let sub = branch(&t, plain('g')).unwrap();
    assert_eq!(sub.len(), 2);
    assert_eq!(single_action(&sub, plain('n')), Some(Action::MessageListNext));
    assert_eq!(single_action(&sub, plain('p')), Some(Action::MessageListPrevious));
}

#[test]
fn invalid_key_is_reported() {
    let r = compile_entries(&vec![entry(&["q"], "quit"), entry(&["g", "bogus"], "render")]);
    assert_eq!(r.err(), Some(ConfigError::InvalidKey("bogus".to_string())));
}

#[test]
fn unknown_command_is_reported() {
    let r = compile_entries(&vec![entry(&["q"], "launch")]);
    assert_eq!(r.err(), Some(ConfigError::UnknownCommand("launch".to_string())));
}

#[test]
fn empty_chord_is_reported() {
    let r = compile_entries(&vec![entry(&[], "quit")]);
    assert_eq!(r.err(), Some(ConfigError::EmptyChord("quit".to_string())));
}

#[test]
fn keys_are_checked_before_the_command() {
    let r = compile_entries(&vec![entry(&["bogus"], "launch")]);
    assert_eq!(r.err(), Some(ConfigError::InvalidKey("bogus".to_string())));
}

fn sample_raw() -> KeymapRaw {
    KeymapRaw {
        core_window: Some(KeymapMode {
            keymap: vec![
                entry(&["q"], "quit"),
                entry(&["ctrl+r"], "render"),
                entry(&["g", "n"], "message_list_next"),
            ],
        }),
        chat_list: None,
        chat: Some(KeymapMode { keymap: vec![entry(&["esc"], "message_list_unselect")] }),
        prompt: Some(KeymapMode { keymap: vec![] }),
    }
}

#[test]
fn compiling_twice_gives_the_same_tries() {
    let a = KeymapConfig::compile(&sample_raw()).unwrap();
    let b = KeymapConfig::compile(&sample_raw()).unwrap();
    let keys = [
        plain('q'),
        plain('g'),
        plain('n'),
        KeyPress { code: KeyCode::Char('r'), modifiers: Modifiers { control: true, alt: false, shift: false } },
    ];
    for k in keys.iter() {
        assert_eq!(single_action(&a.core_window, *k), single_action(&b.core_window, *k));
        assert_eq!(branch(&a.core_window, *k).is_some(), branch(&b.core_window, *k).is_some());
    }
    let sa = branch(&a.core_window, plain('g')).unwrap();
    let sb = branch(&b.core_window, plain('g')).unwrap();
    assert_eq!(single_action(&sa, plain('n')), single_action(&sb, plain('n')));
    assert_eq!(a.core_window.len(), 3);
    assert_eq!(a.chat_list.len(), 0);
    assert_eq!(a.chat.len(), b.chat.len());
    assert_eq!(
        single_action(&a.chat, KeyPress { code: KeyCode::Esc, modifiers: Modifiers::none() }),
        Some(Action::MessageListUnselect)
    );
    assert_eq!(a.prompt.len(), 0);
}

#[test]
fn first_failing_mode_is_reported() {
    let mut raw = sample_raw();
    raw.chat_list = Some(KeymapMode { keymap: vec![entry(&["x"], "nope")] });
    raw.prompt = Some(KeymapMode { keymap: vec![entry(&["??"], "quit")] });
    let r = KeymapConfig::compile(&raw);
    assert_eq!(r.err(), Some(ConfigError::UnknownCommand("nope".to_string())));
}

#[test]
fn description_is_kept() {
    let mut e = entry(&["q"], "quit");
    e.description = Some("Leave the application".to_string());
    let t = compile_entries(&vec![e]).unwrap();
    match t.get(plain('q')) {
        Some(ActionBinding::Single { action, description }) => {
            assert_eq!(action, Action::Quit);
            assert_eq!(description, Some("Leave the application".to_string()));
        }
        _ => panic!("expected a single binding"),
    }
}
