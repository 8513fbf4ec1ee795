use crate::action::Action;
use crate::chat_window::{ChatWindow, ChatWindowView};
use crate::component::{Component, HandleFocus, HandleSmallArea};
use crate::event::Event;
use vstd::prelude::*;

verus! {

/// The root container: an ordered list of child windows, at most one of
/// them focused. Actions reach the focused child only, except the
/// structural ones, which reach every child.
pub struct CoreWindow {
    children: Vec<ChatWindow>,
    focused: Option<usize>,
    small_area: bool,
}

/// The mathematical value of the root container.
pub struct CoreWindowView {
    pub children: Seq<ChatWindowView>,
    pub focused: Option<usize>,
    pub small_area: bool,
}

impl View for CoreWindow {
    type V = CoreWindowView;

    closed spec fn view(&self) -> CoreWindowView {
        CoreWindowView {
            children: self.children@.map_values(|c: ChatWindow| c@),
            focused: self.focused,
            small_area: self.small_area,
        }
    }
}

impl CoreWindowView {
    /// The focused index, if any, names a child.
    pub open spec fn wf(self) -> bool {
        match self.focused {
            Some(f) => f < self.children.len(),
            None => true,
        }
    }

    /// The children after `action` was routed through the container.
    pub open spec fn routed(self, action: Action) -> Seq<ChatWindowView> {
        if action.is_structural_spec() {
            self.children.map_values(|c: ChatWindowView| c.after_update(action))
        } else {
            match self.focused {
                Some(f) => self.children.update(f as int, self.children[f as int].after_update(action)),
                None => self.children,
            }
        }
    }

    /// The action the container derives from a raw event: the focused
    /// child's.
    pub open spec fn event_action(self, event: Event) -> Option<Action> {
        match self.focused {
            Some(f) => self.children[f as int].event_action(event),
            None => None,
        }
    }
}

impl CoreWindow {
    /// A container of the given children with none focused.
    pub fn new(children: Vec<ChatWindow>) -> (r: CoreWindow)
        ensures
            r@.children == children@.map_values(|c: ChatWindow| c@),
            r@.focused is None,
            !r@.small_area,
            r@.wf(),
    {
        CoreWindow { children, focused: None, small_area: false }
    }

    pub fn focused(&self) -> (r: Option<usize>)
        ensures
            r == self@.focused,
    {
        self.focused
    }

    pub fn len(&self) -> (r: usize)
        ensures
            r == self@.children.len(),
    {
        self.children.len()
    }

    pub fn child(&self, i: usize) -> (r: &ChatWindow)
        requires
            i < self@.children.len(),
        ensures
            r@ == self@.children[i as int],
    {
        &self.children[i]
    }

    /// Applies `f` to child `i`.
    fn set_focus_of(&mut self, i: usize, focus: bool)
        requires
            i < old(self)@.children.len(),
        ensures
            final(self)@.focused == old(self)@.focused,
            final(self)@.small_area == old(self)@.small_area,
            final(self)@.children == old(self)@.children.update(
                i as int,
                ChatWindowView { focused: focus, ..old(self)@.children[i as int] },
            ),
    {
        let ghost before = self@.children;
        let mut c = self.children.remove(i);
        assert(c@ == before[i as int]);
        if focus {
            c.focus();
        } else {
            c.unfocus();
        }
        self.children.insert(i, c);
        assert(self@.children =~= before.update(
            i as int,
            ChatWindowView { focused: focus, ..before[i as int] },
        ));
    }

    /// Moves the focus to child `i`: the previously focused child is
    /// unfocused first.
    pub fn focus_child(&mut self, i: usize)
        requires
            old(self)@.wf(),
            i < old(self)@.children.len(),
        ensures
            final(self)@.wf(),
            final(self)@.focused == Some(i),
            final(self)@.small_area == old(self)@.small_area,
            final(self)@.children.len() == old(self)@.children.len(),
            final(self)@.children[i as int] == (ChatWindowView {
                focused: true,
                ..old(self)@.children[i as int]
            }),
            forall|j: usize|
                j < old(self)@.children.len() && j != i ==> final(self)@.children[j as int] == if old(
                    self,
                )@.focused == Some(j) {
                    ChatWindowView { focused: false, ..old(self)@.children[j as int] }
                } else {
                    old(self)@.children[j as int]
                },
    {
        match self.focused {
            Some(f) => {
                self.set_focus_of(f, false);
            },
            None => {},
        }
        self.set_focus_of(i, true);
        self.focused = Some(i);
    }
}

impl Component for CoreWindow {
    open spec fn inv(&self) -> bool {
        self@.wf()
    }

    open spec fn same_state(&self, other: CoreWindow) -> bool {
        self@ == other@
    }

    open spec fn event_action(&self, event: Event) -> Option<Action> {
        self@.event_action(event)
    }

    open spec fn updated(&self, action: Action, next: CoreWindow) -> bool {
        next@ == CoreWindowView { children: self@.routed(action), ..self@ }
    }

    /// Routes an action: a structural one to every child, any other to the
    /// focused child alone.
    fn update(&mut self, action: &Action) {
        let ghost before = self@.children;
        if action.is_structural() {
            let mut i: usize = 0;
            while i < self.children.len()
                invariant
                    self@.focused == old(self)@.focused,
                    self@.small_area == old(self)@.small_area,
                    before == old(self)@.children,
                    before.len() == self@.children.len(),
                    i <= before.len(),
                    forall|j: int|
                        0 <= j < before.len() ==> self@.children[j] == if j < i {
                            before[j].after_update(*action)
                        } else {
                            before[j]
                        },
                decreases before.len() - i,
            {
                let ghost cur = self@.children;
                let mut c = self.children.remove(i);
                assert(c@ == cur[i as int]);
                c.update(action);
                self.children.insert(i, c);
                assert(self@.children =~= cur.update(i as int, cur[i as int].after_update(*action)));
                i = i + 1;
            }
            assert(self@.children =~= old(self)@.routed(*action));
        } else {
            match self.focused {
                Some(f) => {
                    let mut c = self.children.remove(f);
                    assert(c@ == before[f as int]);
                    c.update(action);
                    self.children.insert(f, c);
                    assert(self@.children =~= before.update(
                        f as int,
                        before[f as int].after_update(*action),
                    ));
                },
                None => {},
            }
        }
    }

    /// Passes a raw event to the focused child.
    fn handle_events(&mut self, event: &Event) -> (r: Option<Action>) {
        match self.focused {
            Some(f) => {
                let ghost before = self@.children;
                let mut c = self.children.remove(f);
                assert(c@ == before[f as int]);
                let r = c.handle_events(event);
                self.children.insert(f, c);
                assert(self@.children =~= before);
                r
            },
            None => None,
        }
    }
}

impl HandleSmallArea for CoreWindow {
    open spec fn small_area_spec(&self) -> bool {
        self@.small_area
    }

    /// Records the flag and passes it on to every child.
    fn with_small_area(&mut self, small_area: bool)
        ensures
            final(self)@.small_area == small_area,
            final(self)@.focused == old(self)@.focused,
            final(self)@.children == old(self)@.children.map_values(
                |c: ChatWindowView| ChatWindowView { small_area, ..c },
            ),
    {
        let ghost before = self@.children;
        let mut i: usize = 0;
        while i < self.children.len()
            invariant
                self@.focused == old(self)@.focused,
                before == old(self)@.children,
                before.len() == self@.children.len(),
                i <= before.len(),
                forall|j: int|
                    0 <= j < before.len() ==> self@.children[j] == if j < i {
                        ChatWindowView { small_area, ..before[j] }
                    } else {
                        before[j]
                    },
            decreases before.len() - i,
        {
            let ghost cur = self@.children;
            let mut c = self.children.remove(i);
            assert(c@ == cur[i as int]);
            c.with_small_area(small_area);
            self.children.insert(i, c);
            assert(self@.children =~= cur.update(i as int, ChatWindowView { small_area, ..cur[i as int] }));
            i = i + 1;
        }
        self.small_area = small_area;
        assert(self@.children =~= before.map_values(|c: ChatWindowView| ChatWindowView { small_area, ..c }));
    }
}

/// Focus routing: a non-structural action changes the focused child alone,
/// and leaves every sibling as it was; a structural one reaches every child.
pub proof fn lemma_focus_routing(w: CoreWindowView, action: Action, j: usize)
    requires
        w.wf(),
        j < w.children.len(),
    ensures
        action.is_structural_spec() ==> w.routed(action)[j as int] == w.children[j as int].after_update(
            action,
        ),
        !action.is_structural_spec() && w.focused != Some(j) ==> w.routed(action)[j as int]
            == w.children[j as int],
        !action.is_structural_spec() && w.focused == Some(j) ==> w.routed(action)[j as int]
            == w.children[j as int].after_update(action),
        w.routed(action).len() == w.children.len(),
{
}

} // verus!
