use crate::action::Action;
use crate::component::{Component, HandleFocus, HandleSmallArea};
use crate::event::{Event, KeyPress, MouseInput};
use crate::message_entry::{DateTimeEntry, MessageEntry, MessageSender, MessageView};
use vstd::prelude::*;

verus! {

/// A window that shows the messages of the open chat, newest at the bottom,
/// with a selection cursor.
pub struct ChatWindow {
    name: String,
    small_area: bool,
    message_list: Vec<MessageEntry>,
    selected: Option<usize>,
    focused: bool,
}

/// The mathematical value of a chat window.
pub struct ChatWindowView {
    pub name: Seq<char>,
    pub small_area: bool,
    pub messages: Seq<MessageEntry>,
    pub selected: Option<usize>,
    pub focused: bool,
}

/// The selection after moving one item towards the newest message.
pub open spec fn next_selection(selected: Option<usize>) -> Option<usize> {
    match selected {
        Some(i) => Some(if i == 0 {
            0
        } else {
            (i - 1) as usize
        }),
        None => Some(0),
    }
}

/// The selection after moving one item towards the oldest message; it stops
/// at the last item.
pub open spec fn previous_selection(selected: Option<usize>, len: nat) -> Option<usize> {
    match selected {
        Some(i) => Some(if i + 1 >= len {
            i
        } else {
            (i + 1) as usize
        }),
        None => Some(0),
    }
}

impl ChatWindowView {
    /// The window after it received `action`.
    pub open spec fn after_update(self, action: Action) -> ChatWindowView {
        match action {
            Action::MessageListNext => ChatWindowView { selected: next_selection(self.selected), ..self },
            Action::MessageListPrevious => ChatWindowView {
                selected: previous_selection(self.selected, self.messages.len()),
                ..self
            },
            Action::MessageListUnselect => ChatWindowView { selected: None, ..self },
            _ => self,
        }
    }

    /// The action the window derives from a raw event: none, it is driven by
    /// actions alone.
    pub open spec fn event_action(self, event: Event) -> Option<Action> {
        None
    }
}

impl View for ChatWindow {
    type V = ChatWindowView;

    closed spec fn view(&self) -> ChatWindowView {
        ChatWindowView {
            name: self.name@,
            small_area: self.small_area,
            messages: self.message_list@,
            selected: self.selected,
            focused: self.focused,
        }
    }
}

/// How one message of the list is laid out.
#[derive(Clone, Copy, Debug, PartialEq, Eq, Structural)]
pub struct ItemLayout {
    /// Aligned to the right, in the style of one's own messages; the others
    /// go to the left.
    pub own_side: bool,
}

/// What a chat window draws, decided from its state alone.
pub struct ChatDrawPlan {
    /// The title of the header block.
    pub title: String,
    /// Whether the borders take the focused style.
    pub border_focused: bool,
    /// Whether the condensed form is drawn.
    pub small_area: bool,
    /// The layout of each message, bottom to top.
    pub items: Vec<ItemLayout>,
    /// The highlighted message.
    pub selected: Option<usize>,
}

/// The layout of the items of a list of `n` messages: they alternate sides,
/// starting on one's own side.
pub open spec fn item_layouts(n: nat) -> Seq<ItemLayout> {
    Seq::new(n, |i: int| ItemLayout { own_side: i % 2 == 0 })
}

/// How many placeholder messages a new window holds.
pub const PLACEHOLDER_MESSAGES: usize = 6;

/// A placeholder message: id 0, from user 0, at time 0, with no text.
pub open spec fn placeholder_view() -> MessageView {
    MessageView {
        id: 0,
        sender_id: MessageSender::User(0),
        lines: Seq::empty(),
        timestamp: DateTimeEntry { timestamp: 0 },
        is_edited: false,
    }
}

impl ChatWindow {
    /// A chat window with no name and no selection, holding six
    /// placeholder messages until the open chat's messages are set.
    pub fn new() -> (r: ChatWindow)
        ensures
            r@.name == Seq::<char>::empty(),
            !r@.small_area,
            r@.selected is None,
            !r@.focused,
            r@.messages.len() == PLACEHOLDER_MESSAGES,
            forall|i: int|
                0 <= i < r@.messages.len() ==> #[trigger] r@.messages[i]@ == placeholder_view(),
    {
        let mut message_list: Vec<MessageEntry> = Vec::new();
        let mut i: usize = 0;
        while i < PLACEHOLDER_MESSAGES
            invariant
                i <= PLACEHOLDER_MESSAGES,
                message_list@.len() == i,
                forall|j: int| 0 <= j < i ==> #[trigger] message_list@[j]@ == placeholder_view(),
            decreases PLACEHOLDER_MESSAGES - i,
        {
            message_list.push(
                MessageEntry::new(0, MessageSender::User(0), DateTimeEntry { timestamp: 0 }, false),
            );
            i = i + 1;
        }
        ChatWindow {
            name: String::new(),
            small_area: false,
            message_list,
            selected: None,
            focused: false,
        }
    }

    /// The messages shown, oldest first.
    pub fn messages(&self) -> (r: &Vec<MessageEntry>)
        ensures
            r@ == self@.messages,
    {
        &self.message_list
    }

    /// The window under another name.
    pub fn with_name(self, name: &str) -> (r: ChatWindow)
        ensures
            r@ == (ChatWindowView { name: name@, ..self@ }),
    {
        ChatWindow { name: name.to_owned(), ..self }
    }

    /// Replaces the messages shown; the selection stays.
    pub fn set_messages(&mut self, messages: Vec<MessageEntry>)
        ensures
            final(self)@ == (ChatWindowView { messages: messages@, ..old(self)@ }),
    {
        self.message_list = messages;
    }

    pub fn name(&self) -> (r: &str)
        ensures
            r@ == self@.name,
    {
        self.name.as_str()
    }

    pub fn selected(&self) -> (r: Option<usize>)
        ensures
            r == self@.selected,
    {
        self.selected
    }

    pub fn is_focused(&self) -> (r: bool)
        ensures
            r == self@.focused,
    {
        self.focused
    }

    pub fn is_small_area(&self) -> (r: bool)
        ensures
            r == self@.small_area,
    {
        self.small_area
    }

    pub fn message_count(&self) -> (r: usize)
        ensures
            r == self@.messages.len(),
    {
        self.message_list.len()
    }

    /// Selects the next message item in the list.
    fn next(&mut self)
        ensures
            final(self)@ == (ChatWindowView { selected: next_selection(old(self)@.selected), ..old(self)@ }),
    {
        let i = match self.selected {
            Some(i) => if i == 0 {
                0
            } else {
                i - 1
            },
            None => 0,
        };
        self.selected = Some(i);
    }

    /// Selects the previous message item in the list.
    fn previous(&mut self)
        ensures
            final(self)@ == (ChatWindowView {
                selected: previous_selection(old(self)@.selected, old(self)@.messages.len()),
                ..old(self)@
            }),
    {
        let i = match self.selected {
            Some(i) => if i >= self.message_list.len() || i + 1 >= self.message_list.len() {
                i
            } else {
                i + 1
            },
            None => 0,
        };
        self.selected = Some(i);
    }

    /// Clears the selection.
    fn unselect(&mut self)
        ensures
            final(self)@ == (ChatWindowView { selected: None, ..old(self)@ }),
    {
        self.selected = None;
    }

    /// Handles a key event; the window binds no keys of its own.
    pub fn handle_key_events(&mut self, key: KeyPress) -> (r: Option<Action>)
        ensures
            *final(self) == *old(self),
            r is None,
    {
        None
    }

    /// Handles a mouse event; the window ignores the mouse.
    pub fn handle_mouse_events(&mut self, mouse: MouseInput) -> (r: Option<Action>)
        ensures
            *final(self) == *old(self),
            r is None,
    {
        None
    }

    /// What the window draws. It reads the state only, so drawing twice
    /// with unchanged state gives the same picture.
    pub fn draw_plan(&self) -> (r: ChatDrawPlan)
        ensures
            r.title@ == self@.name,
            r.border_focused == self@.focused,
            r.small_area == self@.small_area,
            r.items@ == item_layouts(self@.messages.len()),
            r.selected == self@.selected,
    {
        let mut items: Vec<ItemLayout> = Vec::new();
        let mut i: usize = 0;
        while i < self.message_list.len()
            invariant
                i <= self.message_list@.len(),
                items@ == item_layouts(i as nat),
            decreases self.message_list@.len() - i,
        {
            items.push(ItemLayout { own_side: i % 2 == 0 });
            i = i + 1;
            assert(items@ =~= item_layouts(i as nat));
        }
        ChatDrawPlan {
            title: self.name.clone(),
            border_focused: self.focused,
            small_area: self.small_area,
            items,
            selected: self.selected,
        }
    }
}

impl Component for ChatWindow {
    open spec fn inv(&self) -> bool {
        true
    }

    open spec fn same_state(&self, other: ChatWindow) -> bool {
        self@ == other@
    }

    open spec fn event_action(&self, event: Event) -> Option<Action> {
        self@.event_action(event)
    }

    open spec fn updated(&self, action: Action, next: ChatWindow) -> bool {
        next@ == self@.after_update(action)
    }

    /// Dispatches an event to the key or mouse handler by its kind.
    fn handle_events(&mut self, event: &Event) -> (r: Option<Action>) {
        match event {
            Event::Key(code, modifiers) => self.handle_key_events(
                KeyPress { code: *code, modifiers: *modifiers },
            ),
            Event::Mouse(m) => self.handle_mouse_events(*m),
            _ => None,
        }
    }

    /// Moves or clears the selection on the message list actions.
    fn update(&mut self, action: &Action) {
        match action {
            Action::MessageListNext => self.next(),
            Action::MessageListPrevious => self.previous(),
            Action::MessageListUnselect => self.unselect(),
            _ => {},
        }
    }
}

impl HandleFocus for ChatWindow {
    open spec fn focused_spec(&self) -> bool {
        self@.focused
    }

    fn focus(&mut self)
        ensures
            final(self)@ == (ChatWindowView { focused: true, ..old(self)@ }),
    {
        self.focused = true;
    }

    fn unfocus(&mut self)
        ensures
            final(self)@ == (ChatWindowView { focused: false, ..old(self)@ }),
    {
        self.focused = false;
    }
}

impl HandleSmallArea for ChatWindow {
    open spec fn small_area_spec(&self) -> bool {
        self@.small_area
    }

    fn with_small_area(&mut self, small_area: bool)
        ensures
            final(self)@ == (ChatWindowView { small_area, ..old(self)@ }),
    {
        self.small_area = small_area;
    }
}

} // verus!
