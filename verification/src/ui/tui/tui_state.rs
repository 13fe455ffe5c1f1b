//! State of the terminal UI around the conversation, and what keys and the
//! mouse do to it: quitting, the debug panel, scrolling, folding thinking
//! blocks and selecting text.  Drawing, the input box and the clipboard
//! are left to the caller.
use vstd::prelude::*;
use crate::ui::tui::chat::{toggled_last_thinking, ChatLog, ChatView, MessageView};
use crate::ui::tui::debug_panel::{next_filter, sat_sub, DebugPanel, PAGE_SIZE, VISIBLE_LOGS};
use crate::ui::tui::selection::{click_position, mouse_to_text_position, Rect, SelectionTarget, TextSelection};

verus! {

/// A key as the UI reads it.
#[derive(Debug, Clone, Copy, PartialEq, Eq, Structural)]
pub enum KeyCode {
    Esc,
    Enter,
    Char(char),
    F(u8),
    PageUp,
    PageDown,
    Up,
    Down,
    Left,
    Right,
    Home,
    End,
    Backspace,
    Delete,
    Other,
}

/// A key press with the modifiers that matter.
#[derive(Debug, Clone, Copy, PartialEq, Eq, Structural)]
pub struct KeyInput {
    pub code: KeyCode,
    pub control: bool,
    pub shift: bool,
}

/// What a key press does.
#[derive(Debug, Clone, Copy, PartialEq, Eq, Structural)]
pub enum KeyEffect {
    /// Leave the application.
    Exit,
    /// Close the file popup of the input box.
    CancelAutocomplete,
    /// Show or hide the debug panel.
    ToggleDebugPanel,
    /// Show the next log level in the debug panel.
    CycleLogLevel,
    /// Empty the debug panel.
    ClearDebugPanel,
    DebugPageUp,
    DebugPageDown,
    DebugScrollUp,
    DebugScrollDown,
    /// Fold or unfold the last thinking block.
    ToggleThinking,
    /// Hand the key to the input box.
    ToInput,
    /// Clear the selection and hand the key to the input box.
    ClearSelectionToInput,
    /// Nothing.
    Ignore,
}

/// Kind of a mouse event.
#[derive(Debug, Clone, Copy, PartialEq, Eq, Structural)]
pub enum MouseKind {
    ScrollUp,
    ScrollDown,
    LeftDown,
    LeftDrag,
    LeftUp,
    Other,
}

/// A mouse event at a terminal cell.
#[derive(Debug, Clone, Copy, PartialEq, Eq, Structural)]
pub struct MouseInput {
    pub kind: MouseKind,
    pub column: u16,
    pub row: u16,
}

/// What the caller has to do after a mouse event.
#[derive(Debug, Clone, Copy, PartialEq, Eq, Structural)]
pub enum MouseOutcome {
    Nothing,
    /// Copy the selected conversation text to the clipboard.
    CopySelection,
}

/// Where the panels were last drawn.
#[derive(Debug, Clone, Copy, PartialEq, Eq, Structural)]
pub struct ScreenAreas {
    pub conversation: Rect,
    pub debug: Option<Rect>,
}

/// What a key does.  Esc closes the file popup, or quits; `q` quits; F12
/// shows or hides the debug panel; `l` and `c` cycle the log level and
/// clear the panel when it is shown; the page and arrow keys go to the
/// popup when it is open, else scroll the shown panel; Ctrl+T folds the
/// last thinking block; any other key clears the selection and goes to the
/// input box.
pub open spec fn key_effect_of(key: KeyInput, autocomplete_mode: bool, autocomplete_active: bool, show_debug: bool) -> KeyEffect {
    match key.code {
        KeyCode::Esc => if autocomplete_mode {
            KeyEffect::CancelAutocomplete
        } else {
            KeyEffect::Exit
        },
        KeyCode::Char('q') => KeyEffect::Exit,
        KeyCode::F(12) => KeyEffect::ToggleDebugPanel,
        KeyCode::Char('l') => if show_debug {
            KeyEffect::CycleLogLevel
        } else {
            KeyEffect::Ignore
        },
        KeyCode::Char('c') => if show_debug {
            KeyEffect::ClearDebugPanel
        } else {
            KeyEffect::Ignore
        },
        KeyCode::PageUp => scroll_key(autocomplete_active, show_debug, KeyEffect::DebugPageUp),
        KeyCode::PageDown => scroll_key(autocomplete_active, show_debug, KeyEffect::DebugPageDown),
        KeyCode::Up => scroll_key(autocomplete_active, show_debug, KeyEffect::DebugScrollUp),
        KeyCode::Down => scroll_key(autocomplete_active, show_debug, KeyEffect::DebugScrollDown),
        _ => if key.code == KeyCode::Char('t') && key.control {
            KeyEffect::ToggleThinking
        } else {
            KeyEffect::ClearSelectionToInput
        },
    }
}

/// A scrolling key goes to the open popup, else scrolls the shown panel.
pub open spec fn scroll_key(autocomplete_active: bool, show_debug: bool, scroll: KeyEffect) -> KeyEffect {
    if autocomplete_active {
        KeyEffect::ToInput
    } else if show_debug {
        scroll
    } else {
        KeyEffect::Ignore
    }
}

/// Whether the cell lies inside the rectangle.
pub open spec fn inside(r: Rect, x: u16, y: u16) -> bool {
    x >= r.x && x < r.x + r.width && y >= r.y && y < r.y + r.height
}

/// State of the terminal UI.
pub struct TuiState {
    chat: ChatLog,
    conversation_scroll: usize,
    cached_areas: Option<ScreenAreas>,
    should_exit: bool,
    debug_panel: DebugPanel,
    show_debug_panel: bool,
    selection: Option<TextSelection>,
    cached_conversation_line_count: usize,
    cached_debug_line_count: usize,
}

/// Whether a rectangle can be clicked into: its corner is not on the last
/// row or column of the coordinate range.
pub open spec fn clickable(r: Rect) -> bool {
    r.x < u16::MAX && r.y < u16::MAX
}

impl TuiState {
    /// The content of the conversation.
    pub closed spec fn conversation(&self) -> ChatView {
        self.chat.view()
    }

    /// The status bar of the conversation.
    pub closed spec fn status_bar(&self) -> crate::ui::tui::status_bar::StatusBar {
        self.chat.status_bar()
    }

    /// Number of messages scrolled off the top of the conversation.
    pub closed spec fn scroll(&self) -> nat {
        self.conversation_scroll as nat
    }

    /// Where the panels were last drawn.
    pub closed spec fn areas(&self) -> Option<ScreenAreas> {
        self.cached_areas
    }

    /// Whether the application is to quit.
    pub closed spec fn exiting(&self) -> bool {
        self.should_exit
    }

    /// The debug panel.
    pub closed spec fn panel(&self) -> DebugPanel {
        self.debug_panel
    }

    /// Whether the debug panel is shown.
    pub closed spec fn debug_shown(&self) -> bool {
        self.show_debug_panel
    }

    /// The text selection.
    pub closed spec fn selected(&self) -> Option<TextSelection> {
        self.selection
    }

    /// Number of lines last drawn in the conversation.
    pub closed spec fn conversation_lines(&self) -> nat {
        self.cached_conversation_line_count as nat
    }

    /// Number of lines last drawn in the debug panel.
    pub closed spec fn debug_lines(&self) -> nat {
        self.cached_debug_line_count as nat
    }

    /// The debug panel is well formed and keeps at most 1000 entries; the
    /// drawn panels can be clicked into.
    pub closed spec fn wf(&self) -> bool {
        &&& self.debug_panel.wf()
        &&& self.debug_panel.max() <= 1000
        &&& (self.cached_areas matches Some(a) ==> clickable(a.conversation) && (a.debug matches Some(d)
            ==> clickable(d)))
    }

    /// Whether a cell lies in the conversation as last drawn.
    pub open spec fn in_conversation(&self, x: u16, y: u16) -> bool {
        self.areas() matches Some(a) && inside(a.conversation, x, y)
    }

    /// Whether a cell lies in the shown debug panel as last drawn.
    pub open spec fn in_debug(&self, x: u16, y: u16) -> bool {
        self.debug_shown() && (self.areas() matches Some(a) && (a.debug matches Some(d) && inside(d, x, y)))
    }

    /// A fresh UI: empty conversation, nothing drawn yet, a hidden debug
    /// panel keeping 1000 entries, no selection.
    pub fn new() -> (r: Self)
        ensures
            r.wf(),
            r.conversation().messages.len() == 0,
            r.conversation().reasoning.len() == 0,
            r.conversation().response.len() == 0,
            r.conversation().last_tool_call is None,
            r.conversation().status_message == "Ready"@,
            !r.conversation().streaming,
            r.conversation().input_status == crate::ui::tui::input_status::InputStatus::Idle,
            r.scroll() == 0,
            r.conversation_lines() == 0,
            r.debug_lines() == 0,
            r.areas() is None,
            !r.exiting(),
            !r.debug_shown(),
            r.panel().max() == 1000,
            r.panel().entries().len() == 0,
            r.panel().filter() == crate::logging::LevelFilter::Info,
            r.panel().offset() == 0,
            r.panel().follows(),
            r.selected() is None,
            crate::ui::tui::status_bar::initial_status_bar(r.status_bar()),
    {
        TuiState {
            chat: ChatLog::new(),
            conversation_scroll: 0,
            cached_areas: None,
            should_exit: false,
            debug_panel: DebugPanel::new(1000),
            show_debug_panel: false,
            selection: None,
            cached_conversation_line_count: 0,
            cached_debug_line_count: 0,
        }
    }

    /// The conversation.
    pub fn chat(&self) -> (r: &ChatLog)
        ensures
            r.view() == self.conversation(),
    {
        &self.chat
    }

    /// Applies an event of the agent run to the conversation; streamed
    /// pieces clear the selection.
    pub fn handle_tui_event(&mut self, event: crate::ui::tui::chat::TuiEvent)
        requires
            old(self).wf(),
        ensures
            final(self).wf(),
            final(self).conversation() == crate::ui::tui::chat::chat_step(
                old(self).conversation(),
                crate::ui::tui::chat::event_view(event),
            ),
            final(self).selected() == (if crate::ui::tui::chat::clears_selection(crate::ui::tui::chat::event_view(event)) {
                None
            } else {
                old(self).selected()
            }),
            final(self).panel() == old(self).panel(),
            final(self).debug_shown() == old(self).debug_shown(),
            final(self).scroll() == old(self).scroll(),
            final(self).exiting() == old(self).exiting(),
            final(self).status_bar().session_id == old(self).status_bar().session_id,
            final(self).status_bar().connected == old(self).status_bar().connected,
            final(self).status_bar().tool_count == old(self).status_bar().tool_count,
            final(self).status_bar().model == old(self).status_bar().model,
    {
        if self.chat.handle_event(event) {
            self.selection = None;
        }
    }

    /// Starts sending the text of the input box (see `ChatLog::begin_send`).
    pub fn begin_send(&mut self, input: &str) -> (r: Option<String>)
        requires
            old(self).wf(),
        ensures
            final(self).wf(),
            crate::text::trim(input@).len() == 0 ==> r is None && final(self).conversation() == old(self).conversation(),
            crate::text::trim(input@).len() > 0 ==> (r matches Some(t) && t@ == crate::text::trim(input@)),
            crate::text::trim(input@).len() > 0 ==> final(self).conversation() == (ChatView {
                messages: old(self).conversation().messages.push(MessageView::User(crate::text::trim(input@))),
                reasoning: Seq::empty(),
                response: Seq::empty(),
                streaming: true,
                status_message: "Processing..."@,
                input_status: crate::ui::tui::input_status::InputStatus::Sending,
                ..old(self).conversation()
            }),
            final(self).selected() == old(self).selected(),
            final(self).panel() == old(self).panel(),
            final(self).status_bar().session_id == old(self).status_bar().session_id,
            final(self).status_bar().connected == old(self).status_bar().connected,
            final(self).status_bar().tool_count == old(self).status_bar().tool_count,
            final(self).status_bar().model == old(self).status_bar().model,
    {
        self.chat.begin_send(input)
    }

    /// Whether the application is to quit.
    pub fn should_exit(&self) -> (r: bool)
        ensures
            r == self.exiting(),
    {
        self.should_exit
    }

    /// Whether the debug panel is shown.
    pub fn show_debug_panel(&self) -> (r: bool)
        ensures
            r == self.debug_shown(),
    {
        self.show_debug_panel
    }

    /// Number of messages scrolled off the top of the conversation.
    pub fn conversation_scroll(&self) -> (r: usize)
        ensures
            r == self.scroll(),
    {
        self.conversation_scroll
    }

    /// The text selection.
    pub fn selection(&self) -> (r: Option<TextSelection>)
        ensures
            r == self.selected(),
    {
        self.selection
    }

    /// The debug panel.
    pub fn debug_panel(&self) -> (r: &DebugPanel)
        ensures
            *r == self.panel(),
    {
        &self.debug_panel
    }

    /// Prepares the debug panel for drawing in `area_height` rows (see
    /// `DebugPanel::prepare_render`) and returns what it shows.
    pub fn debug_view(&mut self, area_height: u16) -> (r: crate::ui::tui::debug_panel::DebugPanelView)
        requires
            old(self).wf(),
        ensures
            final(self).wf(),
            final(self).panel().entries() == old(self).panel().entries(),
            final(self).panel().filter() == old(self).panel().filter(),
            final(self).conversation() == old(self).conversation(),
            final(self).selected() == old(self).selected(),
            final(self).debug_shown() == old(self).debug_shown(),
    {
        self.debug_panel.prepare_render(area_height)
    }

    /// What the input status indicator shows now (it falls back to idle
    /// when a temporary status has lasted long enough).
    pub fn input_status_view(&mut self) -> (r: Option<Vec<crate::ui::tui::styled::Span>>)
        requires
            old(self).wf(),
        ensures
            final(self).wf(),
            final(self).conversation().messages == old(self).conversation().messages,
            final(self).conversation().reasoning == old(self).conversation().reasoning,
            final(self).conversation().response == old(self).conversation().response,
            final(self).selected() == old(self).selected(),
            final(self).panel() == old(self).panel(),
    {
        self.chat.input_status().render_view()
    }

    /// Adds a log record to the debug panel when it is shown.
    pub fn log(&mut self, entry: crate::logging::LogEntry)
        requires
            old(self).wf(),
        ensures
            final(self).wf(),
            old(self).debug_shown() ==> final(self).panel().entries() == crate::ui::tui::debug_panel::keep_last(
                old(self).panel().entries().push(entry),
                crate::ui::tui::debug_panel::capacity(old(self).panel().max()),
            ),
            !old(self).debug_shown() ==> final(self).panel() == old(self).panel(),
            final(self).debug_shown() == old(self).debug_shown(),
            final(self).selected() == old(self).selected(),
    {
        if self.show_debug_panel {
            self.debug_panel.add_log(entry);
        }
    }

    /// Records where the panels were drawn and how many lines they hold.
    pub fn set_drawn(&mut self, areas: ScreenAreas, conversation_lines: usize, debug_lines: usize)
        requires
            old(self).wf(),
            clickable(areas.conversation),
            areas.debug matches Some(d) ==> clickable(d),
        ensures
            final(self).wf(),
            final(self).areas() == Some(areas),
            final(self).conversation_lines() == conversation_lines,
            final(self).debug_lines() == debug_lines,
            final(self).panel() == old(self).panel(),
            final(self).debug_shown() == old(self).debug_shown(),
            final(self).selected() == old(self).selected(),
            final(self).scroll() == old(self).scroll(),
            final(self).exiting() == old(self).exiting(),
    {
        self.cached_areas = Some(areas);
        self.cached_conversation_line_count = conversation_lines;
        self.cached_debug_line_count = debug_lines;
    }

    /// What a key does (see `key_effect_of`).
    pub fn key_effect(&self, key: KeyInput, autocomplete_mode: bool, autocomplete_active: bool) -> (r: KeyEffect)
        ensures
            r == key_effect_of(key, autocomplete_mode, autocomplete_active, self.debug_shown()),
    {
        let show = self.show_debug_panel;
        let scroll = |e: KeyEffect| -> (r: KeyEffect)
            ensures
                r == scroll_key(autocomplete_active, show, e),
            {
                if autocomplete_active {
                    KeyEffect::ToInput
                } else if show {
                    e
                } else {
                    KeyEffect::Ignore
                }
            };
        match key.code {
            KeyCode::Esc => if autocomplete_mode {
                KeyEffect::CancelAutocomplete
            } else {
                KeyEffect::Exit
            },
            KeyCode::Char('q') => KeyEffect::Exit,
            KeyCode::F(12) => KeyEffect::ToggleDebugPanel,
            KeyCode::Char('l') => if show {
                KeyEffect::CycleLogLevel
            } else {
                KeyEffect::Ignore
            },
            KeyCode::Char('c') => if show {
                KeyEffect::ClearDebugPanel
            } else {
                KeyEffect::Ignore
            },
            KeyCode::PageUp => scroll(KeyEffect::DebugPageUp),
            KeyCode::PageDown => scroll(KeyEffect::DebugPageDown),
            KeyCode::Up => scroll(KeyEffect::DebugScrollUp),
            KeyCode::Down => scroll(KeyEffect::DebugScrollDown),
            _ => if key.code == KeyCode::Char('t') && key.control {
                KeyEffect::ToggleThinking
            } else {
                KeyEffect::ClearSelectionToInput
            },
        }
    }

    /// Carries out what a key does to this state.  Returns whether the key
    /// is to be handed to the input box (after the selection is cleared,
    /// for `ClearSelectionToInput`).  Closing the popup is the input box's.
    pub fn apply_key_effect(&mut self, effect: KeyEffect) -> (r: bool)
        requires
            old(self).wf(),
        ensures
            final(self).wf(),
            r == (effect == KeyEffect::ToInput || effect == KeyEffect::ClearSelectionToInput),
            final(self).exiting() == (old(self).exiting() || effect == KeyEffect::Exit),
            final(self).debug_shown() == (if effect == KeyEffect::ToggleDebugPanel {
                !old(self).debug_shown()
            } else {
                old(self).debug_shown()
            }),
            final(self).selected() == (if effect == KeyEffect::ClearSelectionToInput {
                None
            } else {
                old(self).selected()
            }),
            final(self).conversation() == (if effect == KeyEffect::ToggleThinking {
                ChatView { messages: toggled_last_thinking(old(self).conversation().messages), ..old(self).conversation() }
            } else {
                old(self).conversation()
            }),
            final(self).panel().filter() == (if effect == KeyEffect::CycleLogLevel {
                next_filter(old(self).panel().filter())
            } else {
                old(self).panel().filter()
            }),
            final(self).panel().entries() == (if effect == KeyEffect::ClearDebugPanel {
                Seq::empty()
            } else {
                old(self).panel().entries()
            }),
            final(self).panel().offset() == match effect {
                KeyEffect::ClearDebugPanel => 0,
                KeyEffect::DebugPageUp => sat_sub(old(self).panel().offset() as int, PAGE_SIZE as int) as nat,
                KeyEffect::DebugScrollUp => if old(self).panel().offset() > 0 {
                    (old(self).panel().offset() - 1) as nat
                } else {
                    0
                },
                KeyEffect::DebugPageDown => if old(self).panel().offset() + PAGE_SIZE <= sat_sub(
                    old(self).panel().entries().len() as int,
                    VISIBLE_LOGS as int,
                ) {
                    (old(self).panel().offset() + PAGE_SIZE) as nat
                } else {
                    sat_sub(old(self).panel().entries().len() as int, VISIBLE_LOGS as int) as nat
                },
                KeyEffect::DebugScrollDown => if old(self).panel().offset() < sat_sub(
                    old(self).panel().entries().len() as int,
                    VISIBLE_LOGS as int,
                ) {
                    (old(self).panel().offset() + 1) as nat
                } else {
                    old(self).panel().offset()
                },
                _ => old(self).panel().offset(),
            },
            final(self).scroll() == old(self).scroll(),
            final(self).areas() == old(self).areas(),
    {
        match effect {
            KeyEffect::Exit => {
                self.should_exit = true;
                false
            },
            KeyEffect::CancelAutocomplete => false,
            KeyEffect::ToggleDebugPanel => {
                self.show_debug_panel = !self.show_debug_panel;
                false
            },
            KeyEffect::CycleLogLevel => {
                self.debug_panel.cycle_level_filter();
                false
            },
            KeyEffect::ClearDebugPanel => {
                self.debug_panel.clear();
                false
            },
            KeyEffect::DebugPageUp => {
                self.debug_panel.page_up();
                false
            },
            KeyEffect::DebugPageDown => {
                self.debug_panel.page_down();
                false
            },
            KeyEffect::DebugScrollUp => {
                self.debug_panel.scroll_up();
                false
            },
            KeyEffect::DebugScrollDown => {
                self.debug_panel.scroll_down();
                false
            },
            KeyEffect::ToggleThinking => {
                self.chat.toggle_last_thinking();
                false
            },
            KeyEffect::ToInput => true,
            KeyEffect::ClearSelectionToInput => {
                self.selection = None;
                true
            },
            KeyEffect::Ignore => false,
        }
    }

    /// Whether a cell lies in the conversation as last drawn.
    pub fn is_in_conversation_area(&self, x: u16, y: u16) -> (r: bool)
        ensures
            r == self.in_conversation(x, y),
    {
        match &self.cached_areas {
            Some(a) => {
                let c = a.conversation;
                x >= c.x && (x as u32) < c.x as u32 + c.width as u32 && y >= c.y && (y as u32) < c.y as u32
                    + c.height as u32
            },
            None => false,
        }
    }

    /// Whether a cell lies in the shown debug panel as last drawn.
    pub fn is_in_debug_panel(&self, x: u16, y: u16) -> (r: bool)
        ensures
            r == self.in_debug(x, y),
    {
        if !self.show_debug_panel {
            return false;
        }
        match &self.cached_areas {
            Some(a) => match a.debug {
                Some(d) => x >= d.x && (x as u32) < d.x as u32 + d.width as u32 && y >= d.y && (y as u32) < d.y
                    as u32 + d.height as u32,
                None => false,
            },
            None => false,
        }
    }

    /// Whether a click folds or unfolds a thinking block: it lies in the
    /// conversation and some message is a thinking block.
    pub fn is_click_on_thinking_block(&self, x: u16, y: u16) -> (r: bool)
        ensures
            r == (self.in_conversation(x, y) && exists|i: int|
                0 <= i < self.conversation().messages.len() && (#[trigger] self.conversation().messages[i]) is Thinking),
    {
        if !self.is_in_conversation_area(x, y) {
            return false;
        }
        self.chat.has_thinking()
    }

    /// Where a cell falls in the text of a panel as last drawn.
    fn position_in(&self, x: u16, y: u16, target: SelectionTarget) -> (r: Option<crate::ui::tui::selection::TextPosition>)
        requires
            self.wf(),
        ensures
            r == match target {
                SelectionTarget::Conversation => match self.areas() {
                    Some(a) => click_position(x, y, a.conversation, self.conversation_lines(), 0),
                    None => None,
                },
                SelectionTarget::DebugPanel => match self.areas() {
                    Some(a) => match a.debug {
                        Some(d) => click_position(x, y, d, self.debug_lines(), self.panel().offset()),
                        None => None,
                    },
                    None => None,
                },
            },
    {
        match &self.cached_areas {
            Some(a) => match target {
                SelectionTarget::Conversation => mouse_to_text_position(
                    x,
                    y,
                    a.conversation,
                    self.cached_conversation_line_count,
                    0,
                ),
                SelectionTarget::DebugPanel => match a.debug {
                    Some(d) => {
                        let off = self.debug_panel.scroll_offset();
                        assert(off <= 1000) by {
                            assert(self.debug_panel.offset() <= self.debug_panel.entries().len());
                        }
                        mouse_to_text_position(x, y, d, self.cached_debug_line_count, off)
                    },
                    None => None,
                },
            },
            None => None,
        }
    }

    /// Handles a mouse event.  The wheel scrolls the debug panel or the
    /// conversation under the pointer, clearing the selection; a left click
    /// folds or unfolds the last thinking block when it lands in the
    /// conversation and there is one, and otherwise starts a selection where
    /// it lands (none outside the text); dragging moves the end of the
    /// selection; releasing after a drag over conversation text asks for a
    /// copy, and ends the drag.
    pub fn handle_mouse(&mut self, m: MouseInput) -> (r: MouseOutcome)
        requires
            old(self).wf(),
        ensures
            final(self).wf(),
            final(self).exiting() == old(self).exiting(),
            final(self).debug_shown() == old(self).debug_shown(),
            final(self).areas() == old(self).areas(),
            final(self).panel().entries() == old(self).panel().entries(),
            final(self).panel().filter() == old(self).panel().filter(),
            m.kind == MouseKind::ScrollUp || m.kind == MouseKind::ScrollDown ==> final(self).selected() is None,
            m.kind == MouseKind::ScrollUp ==> if old(self).in_debug(m.column, m.row) {
                final(self).panel().offset() == (if old(self).panel().offset() > 0 {
                    (old(self).panel().offset() - 1) as nat
                } else {
                    0
                }) && final(self).scroll() == old(self).scroll()
            } else if old(self).in_conversation(m.column, m.row) {
                final(self).scroll() == sat_sub(old(self).scroll() as int, 1) && final(self).panel()
                    == old(self).panel()
            } else {
                final(self).scroll() == old(self).scroll() && final(self).panel() == old(self).panel()
            },
            m.kind == MouseKind::ScrollDown ==> if old(self).in_debug(m.column, m.row) {
                final(self).panel().offset() == (if old(self).panel().offset() < sat_sub(
                    old(self).panel().entries().len() as int,
                    VISIBLE_LOGS as int,
                ) {
                    (old(self).panel().offset() + 1) as nat
                } else {
                    old(self).panel().offset()
                }) && final(self).scroll() == old(self).scroll()
            } else if old(self).in_conversation(m.column, m.row) {
                final(self).scroll() == (if old(self).scroll() < usize::MAX {
                    (old(self).scroll() + 1) as int
                } else {
                    old(self).scroll() as int
                }) && final(self).panel() == old(self).panel()
            } else {
                final(self).scroll() == old(self).scroll() && final(self).panel() == old(self).panel()
            },
            !(m.kind == MouseKind::ScrollUp || m.kind == MouseKind::ScrollDown) ==> final(self).scroll()
                == old(self).scroll() && final(self).panel() == old(self).panel(),
            m.kind == MouseKind::LeftDown ==> if old(self).in_conversation(m.column, m.row) && exists|i: int|
                0 <= i < old(self).conversation().messages.len() && (#[trigger] old(self).conversation().messages[i]) is Thinking {
                final(self).conversation() == (ChatView {
                    messages: toggled_last_thinking(old(self).conversation().messages),
                    ..old(self).conversation()
                }) && final(self).selected() is None
            } else {
                final(self).conversation() == old(self).conversation() && final(self).selected() == match (if old(self).in_debug(
                    m.column,
                    m.row,
                ) {
                    old(self).start_in(m.column, m.row, SelectionTarget::DebugPanel)
                } else if old(self).in_conversation(m.column, m.row) {
                    old(self).start_in(m.column, m.row, SelectionTarget::Conversation)
                } else {
                    None
                }) {
                    Some(s) => Some(s),
                    None => None,
                }
            },
            m.kind != MouseKind::LeftDown ==> final(self).conversation() == old(self).conversation(),
            m.kind == MouseKind::LeftDrag ==> final(self).selected() == match old(self).selected() {
                Some(s) => Some(
                    match old(self).pos_for(m.column, m.row, s.target) {
                        Some(p) => TextSelection { end: p, dragging: true, ..s },
                        None => TextSelection { dragging: true, ..s },
                    },
                ),
                None => None,
            },
            m.kind == MouseKind::LeftUp ==> final(self).selected() == match old(self).selected() {
                Some(s) => Some(TextSelection { dragging: false, ..s }),
                None => None,
            },
            m.kind == MouseKind::LeftUp ==> r == (if old(self).selected() matches Some(s) && s.dragging && s.start
                != s.end && s.target == SelectionTarget::Conversation {
                MouseOutcome::CopySelection
            } else {
                MouseOutcome::Nothing
            }),
            m.kind != MouseKind::LeftUp ==> r == MouseOutcome::Nothing,
            m.kind == MouseKind::Other ==> final(self).selected() == old(self).selected(),
    {
        match m.kind {
            MouseKind::ScrollUp => {
                self.selection = None;
                if self.is_in_debug_panel(m.column, m.row) {
                    self.debug_panel.scroll_up();
                } else if self.is_in_conversation_area(m.column, m.row) {
                    self.conversation_scroll = self.conversation_scroll.saturating_sub(1);
                }
                MouseOutcome::Nothing
            },
            MouseKind::ScrollDown => {
                self.selection = None;
                if self.is_in_debug_panel(m.column, m.row) {
                    self.debug_panel.scroll_down();
                } else if self.is_in_conversation_area(m.column, m.row) {
                    self.conversation_scroll = self.conversation_scroll.saturating_add(1);
                }
                MouseOutcome::Nothing
            },
            MouseKind::LeftDown => {
                if self.is_click_on_thinking_block(m.column, m.row) {
                    self.chat.toggle_last_thinking();
                    self.selection = None;
                    return MouseOutcome::Nothing;
                }
                let target = if self.is_in_debug_panel(m.column, m.row) {
                    match self.position_in(m.column, m.row, SelectionTarget::DebugPanel) {
                        Some(p) => Some((p, SelectionTarget::DebugPanel)),
                        None => None,
                    }
                } else if self.is_in_conversation_area(m.column, m.row) {
                    match self.position_in(m.column, m.row, SelectionTarget::Conversation) {
                        Some(p) => Some((p, SelectionTarget::Conversation)),
                        None => None,
                    }
                } else {
                    None
                };
                self.selection = match target {
                    Some((pos, tgt)) => Some(TextSelection::new(pos, tgt)),
                    None => None,
                };
                MouseOutcome::Nothing
            },
            MouseKind::LeftDrag => {
                match self.selection {
                    Some(sel) => {
                        let mut s = sel;
                        s.dragging = true;
                        match self.position_in(m.column, m.row, s.target) {
                            Some(p) => s.update_end(p),
                            None => {},
                        }
                        self.selection = Some(s);
                    },
                    None => {},
                }
                MouseOutcome::Nothing
            },
            MouseKind::LeftUp => {
                let outcome = match self.selection {
                    Some(sel) => if sel.dragging && !sel.is_empty() && sel.target == SelectionTarget::Conversation {
                        MouseOutcome::CopySelection
                    } else {
                        MouseOutcome::Nothing
                    },
                    None => MouseOutcome::Nothing,
                };
                match self.selection {
                    Some(sel) => {
                        let mut s = sel;
                        s.dragging = false;
                        self.selection = Some(s);
                    },
                    None => {},
                }
                outcome
            },
            MouseKind::Other => MouseOutcome::Nothing,
        }
    }

    /// Where a cell falls in the text of a panel as last drawn (see
    /// `position_in`).
    pub open spec fn pos_for(&self, x: u16, y: u16, target: SelectionTarget) -> Option<crate::ui::tui::selection::TextPosition> {
        match target {
            SelectionTarget::Conversation => match self.areas() {
                Some(a) => click_position(x, y, a.conversation, self.conversation_lines(), 0),
                None => None,
            },
            SelectionTarget::DebugPanel => match self.areas() {
                Some(a) => match a.debug {
                    Some(d) => click_position(x, y, d, self.debug_lines(), self.panel().offset()),
                    None => None,
                },
                None => None,
            },
        }
    }

    /// The selection a click starts in a panel: empty, at the cell's text
    /// position, not dragging; none when the cell is outside the text.
    pub open spec fn start_in(&self, x: u16, y: u16, target: SelectionTarget) -> Option<TextSelection> {
        match self.pos_for(x, y, target) {
            Some(p) => Some(TextSelection { start: p, end: p, target, dragging: false }),
            None => None,
        }
    }
}

/// How copying a selection to the clipboard went.
#[derive(Debug, Clone, Copy, PartialEq, Eq, Structural)]
pub enum CopyResult {
    /// Copied the given number of characters.
    Copied(usize),
    /// The clipboard refused the text.
    Failed,
    /// No clipboard could be opened.
    Unavailable,
}

/// The notice shown after a copy.
pub open spec fn copy_notice(r: CopyResult) -> Seq<char> {
    match r {
        CopyResult::Copied(n) => "已复制 "@ + crate::text::decimal(n as nat) + " 字"@,
        CopyResult::Failed => "复制失败"@,
        CopyResult::Unavailable => "剪贴板不可用"@,
    }
}

/// The notice shown after a copy.
pub fn copy_notice_text(r: CopyResult) -> (s: String)
    ensures
        s@ == copy_notice(r),
{
    match r {
        CopyResult::Copied(n) => {
            let mut t: Vec<char> = Vec::new();
            crate::text::extend_str(&mut t, "已复制 ");
            crate::text::extend_chars(&mut t, crate::text::decimal_chars(n as u64).as_slice());
            crate::text::extend_str(&mut t, " 字");
            crate::text::string_of(t.as_slice())
        },
        CopyResult::Failed => "复制失败".to_owned(),
        CopyResult::Unavailable => "剪贴板不可用".to_owned(),
    }
}

} // verus!
