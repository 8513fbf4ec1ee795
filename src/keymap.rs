use crate::action::Action;
use crate::event::{KeyCode, KeyPress, Modifiers};
use crate::text::{digit, digit_value, str_eq};
use vstd::prelude::*;

verus! {

/// The function key a name such as `f1` or `f12` stands for.
pub open spec fn function_key_spec(s: Seq<char>) -> Option<KeyCode> {
    if s.len() == 2 && s[0] == 'f' {
        match digit_value(s[1]) {
            Some(d) => if d >= 1 {
                Some(KeyCode::F(d))
            } else {
                None
            },
            None => None,
        }
    } else if s.len() == 3 && s[0] == 'f' && s[1] == '1' {
        match digit_value(s[2]) {
            Some(d) => if d <= 2 {
                Some(KeyCode::F((10 + d) as u8))
            } else {
                None
            },
            None => None,
        }
    } else {
        None
    }
}

/// The key a key name stands for: a single character is that character,
/// otherwise one of the named keys.
pub open spec fn key_name_spec(s: Seq<char>) -> Option<KeyCode> {
    if s.len() == 1 {
        Some(KeyCode::Char(s[0]))
    } else if s == "space"@ {
        Some(KeyCode::Char(' '))
    } else if s == "enter"@ {
        Some(KeyCode::Enter)
    } else if s == "esc"@ {
        Some(KeyCode::Esc)
    } else if s == "backspace"@ {
        Some(KeyCode::Backspace)
    } else if s == "tab"@ {
        Some(KeyCode::Tab)
    } else if s == "backtab"@ {
        Some(KeyCode::BackTab)
    } else if s == "delete"@ {
        Some(KeyCode::Delete)
    } else if s == "insert"@ {
        Some(KeyCode::Insert)
    } else if s == "home"@ {
        Some(KeyCode::Home)
    } else if s == "end"@ {
        Some(KeyCode::End)
    } else if s == "pageup"@ {
        Some(KeyCode::PageUp)
    } else if s == "pagedown"@ {
        Some(KeyCode::PageDown)
    } else if s == "up"@ {
        Some(KeyCode::Up)
    } else if s == "down"@ {
        Some(KeyCode::Down)
    } else if s == "left"@ {
        Some(KeyCode::Left)
    } else if s == "right"@ {
        Some(KeyCode::Right)
    } else {
        function_key_spec(s)
    }
}

/// A key combination such as `ctrl+alt+x`: any number of `ctrl+`, `alt+`
/// and `shift+` prefixes followed by a key name.
pub open spec fn parse_key_spec(s: Seq<char>) -> Option<KeyPress>
    decreases s.len(),
{
    if s.len() > 5 && s.take(5) == "ctrl+"@ {
        match parse_key_spec(s.skip(5)) {
            Some(k) => Some(KeyPress { modifiers: Modifiers { control: true, ..k.modifiers }, ..k }),
            None => None,
        }
    } else if s.len() > 4 && s.take(4) == "alt+"@ {
        match parse_key_spec(s.skip(4)) {
            Some(k) => Some(KeyPress { modifiers: Modifiers { alt: true, ..k.modifiers }, ..k }),
            None => None,
        }
    } else if s.len() > 6 && s.take(6) == "shift+"@ {
        match parse_key_spec(s.skip(6)) {
            Some(k) => Some(KeyPress { modifiers: Modifiers { shift: true, ..k.modifiers }, ..k }),
            None => None,
        }
    } else {
        match key_name_spec(s) {
            Some(code) => Some(
                KeyPress { code, modifiers: Modifiers { control: false, alt: false, shift: false } },
            ),
            None => None,
        }
    }
}

/// The action a command name of the configuration stands for.
pub open spec fn command_action_spec(s: Seq<char>) -> Option<Action> {
    if s == "quit"@ {
        Some(Action::Quit)
    } else if s == "render"@ {
        Some(Action::Render)
    } else if s == "message_list_next"@ {
        Some(Action::MessageListNext)
    } else if s == "message_list_previous"@ {
        Some(Action::MessageListPrevious)
    } else if s == "message_list_unselect"@ {
        Some(Action::MessageListUnselect)
    } else {
        None
    }
}

fn function_key(s: &str) -> (r: Option<KeyCode>)
    ensures
        r == function_key_spec(s@),
{
    let n = s.unicode_len();
    if n == 2 && s.get_char(0) == 'f' {
        match digit(s.get_char(1)) {
            Some(d) => if d >= 1 {
                Some(KeyCode::F(d))
            } else {
                None
            },
            None => None,
        }
    } else if n == 3 && s.get_char(0) == 'f' && s.get_char(1) == '1' {
        match digit(s.get_char(2)) {
            Some(d) => if d <= 2 {
                Some(KeyCode::F(10 + d))
            } else {
                None
            },
            None => None,
        }
    } else {
        None
    }
}

/// Parses a key name.
pub fn key_name(s: &str) -> (r: Option<KeyCode>)
    ensures
        r == key_name_spec(s@),
{
    if s.unicode_len() == 1 {
        Some(KeyCode::Char(s.get_char(0)))
    } else if str_eq(s, "space") {
        Some(KeyCode::Char(' '))
    } else if str_eq(s, "enter") {
        Some(KeyCode::Enter)
    } else if str_eq(s, "esc") {
        Some(KeyCode::Esc)
    } else if str_eq(s, "backspace") {
        Some(KeyCode::Backspace)
    } else if str_eq(s, "tab") {
        Some(KeyCode::Tab)
    } else if str_eq(s, "backtab") {
        Some(KeyCode::BackTab)
    } else if str_eq(s, "delete") {
        Some(KeyCode::Delete)
    } else if str_eq(s, "insert") {
        Some(KeyCode::Insert)
    } else if str_eq(s, "home") {
        Some(KeyCode::Home)
    } else if str_eq(s, "end") {
        Some(KeyCode::End)
    } else if str_eq(s, "pageup") {
        Some(KeyCode::PageUp)
    } else if str_eq(s, "pagedown") {
        Some(KeyCode::PageDown)
    } else if str_eq(s, "up") {
        Some(KeyCode::Up)
    } else if str_eq(s, "down") {
        Some(KeyCode::Down)
    } else if str_eq(s, "left") {
        Some(KeyCode::Left)
    } else if str_eq(s, "right") {
        Some(KeyCode::Right)
    } else {
        function_key(s)
    }
}

/// Relates the prefix tests of `parse_key` to those of `parse_key_spec`.
proof fn lemma_prefixes(s: Seq<char>)
    ensures
        s.len() > 4 ==> s.subrange(0, 4) == s.take(4),
        s.len() > 5 ==> s.subrange(0, 5) == s.take(5),
        s.len() > 6 ==> s.subrange(0, 6) == s.take(6),
{
    if s.len() > 4 {
        assert(s.subrange(0, 4) =~= s.take(4));
    }
    if s.len() > 5 {
        assert(s.subrange(0, 5) =~= s.take(5));
    }
    if s.len() > 6 {
        assert(s.subrange(0, 6) =~= s.take(6));
    }
}

/// Parses a key combination such as `ctrl+c` into a normalized key press.
pub fn parse_key(s: &str) -> (r: Option<KeyPress>)
    ensures
        r == parse_key_spec(s@),
    decreases s@.len(),
{
    proof {
        lemma_prefixes(s@);
    }
    let n = s.unicode_len();
    if n > 5 && str_eq(s.substring_char(0, 5), "ctrl+") {
        assert(s@.subrange(5, n as int) =~= s@.skip(5));
        match parse_key(s.substring_char(5, n)) {
            Some(k) => Some(KeyPress { modifiers: Modifiers { control: true, ..k.modifiers }, ..k }),
            None => None,
        }
    } else if n > 4 && str_eq(s.substring_char(0, 4), "alt+") {
        assert(s@.subrange(4, n as int) =~= s@.skip(4));
        match parse_key(s.substring_char(4, n)) {
            Some(k) => Some(KeyPress { modifiers: Modifiers { alt: true, ..k.modifiers }, ..k }),
            None => None,
        }
    } else if n > 6 && str_eq(s.substring_char(0, 6), "shift+") {
        assert(s@.subrange(6, n as int) =~= s@.skip(6));
        match parse_key(s.substring_char(6, n)) {
            Some(k) => Some(KeyPress { modifiers: Modifiers { shift: true, ..k.modifiers }, ..k }),
            None => None,
        }
    } else {
        match key_name(s) {
            Some(code) => Some(KeyPress { code, modifiers: Modifiers::none() }),
            None => None,
        }
    }
}

/// Resolves a command name to its action.
pub fn command_action(s: &str) -> (r: Option<Action>)
    ensures
        r == command_action_spec(s@),
{
    if str_eq(s, "quit") {
        Some(Action::Quit)
    } else if str_eq(s, "render") {
        Some(Action::Render)
    } else if str_eq(s, "message_list_next") {
        Some(Action::MessageListNext)
    } else if str_eq(s, "message_list_previous") {
        Some(Action::MessageListPrevious)
    } else if str_eq(s, "message_list_unselect") {
        Some(Action::MessageListUnselect)
    } else {
        None
    }
}

} // verus!
