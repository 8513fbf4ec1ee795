//! Input-to-action dispatch runtime of a terminal chat client: normalized
//! events, compiled keymaps with multi-key chords, a FIFO action queue and a
//! focus-routing component tree.
//!
//! Components hold no handle to the action channel: the only producer side
//! is `Runtime::send`, and a component hands its actions back as the result
//! of `handle_events`, which the runtime then queues.
pub mod action;
pub mod chat_window;
pub mod chord;
pub mod component;
pub mod core_window;
pub mod event;
pub mod formatting;
pub mod keymap;
pub mod keymap_table;
pub mod keymap_raw;
pub mod message_entry;
pub mod runtime;
pub mod text;
