//! Widgets of the full-screen terminal UI.
pub mod debug_panel;
pub mod styled;
pub mod autocomplete;
pub mod selection;
pub mod permission_prompt;
pub mod status_bar;
pub mod input_status;
pub mod chat;
pub mod tui_state;
pub mod markdown;
pub mod conversation;
pub mod layout;
pub mod input;
