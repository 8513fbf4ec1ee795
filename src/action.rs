use crate::event::{KeyCode, Modifiers};
use vstd::prelude::*;

verus! {

/// An application command: structural ones that mirror input events, and
/// semantic ones produced by keymaps or by components.
#[derive(Clone, Debug, PartialEq, Eq, Hash)]
pub enum Action {
    Render,
    Resize(u16, u16),
    Key(KeyCode, Modifiers),
    Paste(String),
    Quit,
    MessageListNext,
    MessageListPrevious,
    MessageListUnselect,
}

impl Action {
    /// A copy of the action, equal to it.
    pub fn duplicate(&self) -> (r: Action)
        ensures
            r == *self,
    {
        match self {
            Action::Render => Action::Render,
            Action::Resize(w, h) => Action::Resize(*w, *h),
            Action::Key(c, m) => Action::Key(*c, *m),
            Action::Paste(t) => Action::Paste(t.clone()),
            Action::Quit => Action::Quit,
            Action::MessageListNext => Action::MessageListNext,
            Action::MessageListPrevious => Action::MessageListPrevious,
            Action::MessageListUnselect => Action::MessageListUnselect,
        }
    }

    /// Structural actions are observed by every component, focused or not.
    pub open spec fn is_structural_spec(&self) -> bool {
        self is Render || self is Resize
    }

    pub fn is_structural(&self) -> (r: bool)
        ensures
            r == self.is_structural_spec(),
    {
        match self {
            Action::Render | Action::Resize(_, _) => true,
            _ => false,
        }
    }
}

} // verus!
