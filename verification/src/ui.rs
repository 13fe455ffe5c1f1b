//! Terminal user interface: prompts, completion and the full-screen UI.
pub mod prompt;
pub mod tui;
pub mod completer;
pub mod tui_selector;
