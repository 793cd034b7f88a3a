//! The editing engine of a modal terminal text editor: the document and its
//! caret, the scrolling window, visual selections, linear undo history,
//! literal search, the single clipboard register and the key dispatcher.
//!
//! Every operation keeps the caret inside the document and the caret inside
//! the window; the contracts state the resulting document, caret and window
//! exactly.

pub mod keys;
pub mod text;
pub mod document;
pub mod buffer;
pub mod register;
pub mod edit;
pub mod motion;
pub mod indent;
pub mod viewport;
pub mod history;
pub mod search;
pub mod selection;
pub mod settings;
pub mod session;
pub mod editor;
pub mod command;
pub mod bindings;
pub mod dispatch;
pub mod fzy;
pub mod browser;
pub mod theme;
pub mod highlight;
pub mod frame;
pub mod laws;
