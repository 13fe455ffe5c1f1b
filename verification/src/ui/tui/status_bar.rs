//! Status bar state shown at the bottom of the terminal UI.
use vstd::prelude::*;
use crate::text::{decimal, decimal_chars, extend_chars, extend_str};
use crate::ui::tui::styled::{fg_style, plain_style, span, span_chars, spans_view, Color, Span, Style};

verus! {

/// Status bar state.
#[derive(Debug, Clone)]
pub struct StatusBar {
    /// Session ID.
    pub session_id: String,
    /// Connection status.
    pub connected: bool,
    /// Number of available tools.
    pub tool_count: usize,
    /// Model name.
    pub model: String,
    /// Currently streaming.
    pub is_streaming: bool,
    /// Current status message.
    pub status_message: String,
}

/// The state of a fresh status bar.
pub open spec fn initial_status_bar(b: StatusBar) -> bool {
    &&& b.session_id@ == "default"@
    &&& b.connected
    &&& b.tool_count == 6
    &&& b.model@ == "glm-4-flash"@
    &&& !b.is_streaming
    &&& b.status_message@ == "Ready"@
}

impl StatusBar {
    /// A connected status bar for the default session, ready.
    pub fn new() -> (r: Self)
        ensures
            initial_status_bar(r),
    {
        StatusBar {
            session_id: "default".to_owned(),
            connected: true,
            tool_count: 6,
            model: "glm-4-flash".to_owned(),
            is_streaming: false,
            status_message: "Ready".to_owned(),
        }
    }

    /// Sets the status message.
    pub fn set_status(&mut self, msg: String)
        ensures
            final(self).status_message == msg,
            final(self).session_id == old(self).session_id,
            final(self).connected == old(self).connected,
            final(self).tool_count == old(self).tool_count,
            final(self).model == old(self).model,
            final(self).is_streaming == old(self).is_streaming,
    {
        self.status_message = msg;
    }

    /// Sets the streaming state; the message becomes `Processing...` while
    /// streaming and `Ready` otherwise.
    pub fn set_streaming(&mut self, streaming: bool)
        ensures
            final(self).is_streaming == streaming,
            final(self).status_message@ == (if streaming { "Processing..."@ } else { "Ready"@ }),
            final(self).session_id == old(self).session_id,
            final(self).connected == old(self).connected,
            final(self).tool_count == old(self).tool_count,
            final(self).model == old(self).model,
    {
        self.is_streaming = streaming;
        if streaming {
            self.status_message = "Processing...".to_owned();
        } else {
            self.status_message = "Ready".to_owned();
        }
    }
}

/// The key help shown in the status line.
pub open spec fn help_text() -> Seq<char> {
    "Enter:发送 滚轮/↑↓:滚动 点击/Ctrl+T:切换 ESC:退出"@
}

/// The status line: a fresh copy notice when there is one; otherwise the
/// key help, the state (`处理中` while streaming, else the status message),
/// the tool count and the model.
pub open spec fn status_line_of(b: StatusBar, feedback: Option<Seq<char>>) -> Seq<(Seq<char>, Style)> {
    match feedback {
        Some(msg) => seq![("📋 "@, plain_style()), (msg, fg_style(Color::Green))],
        None => seq![
            ((if b.is_streaming { "⏳ "@ } else { "💡 "@ }) + help_text() + " | "@ + (if b.is_streaming {
                "处理中"@
            } else {
                b.status_message@
            }) + " | Tools: "@ + decimal(b.tool_count as nat) + " | Model: "@ + b.model@, fg_style(Color::DarkGray)),
        ],
    }
}

/// The title line: the application name and the session.
pub open spec fn title_line_of(b: StatusBar) -> Seq<(Seq<char>, Style)> {
    seq![
        ("🤖 CodingAgent v1.0"@, Style { fg: Some(Color::Cyan), bg: None, bold: true, dim: false }),
        (" | "@, plain_style()),
        ("Session: "@ + b.session_id@, fg_style(Color::White)),
    ]
}

impl StatusBar {
    /// The status line (see `status_line_of`); `feedback` is the copy
    /// notice still to be shown, if any.
    pub fn status_line(&self, feedback: Option<&str>) -> (r: Vec<Span>)
        ensures
            spans_view(r@) == status_line_of(*self, match feedback {
                Some(f) => Some(f@),
                None => None,
            }),
    {
        let mut r: Vec<Span> = Vec::new();
        match feedback {
            Some(msg) => {
                r.push(span("📋 ", Style::plain()));
                r.push(span(msg, Style::fg(Color::Green)));
            },
            None => {
                let mut t: Vec<char> = Vec::new();
                extend_str(&mut t, if self.is_streaming { "⏳ " } else { "💡 " });
                extend_str(&mut t, "Enter:发送 滚轮/↑↓:滚动 点击/Ctrl+T:切换 ESC:退出");
                extend_str(&mut t, " | ");
                extend_str(&mut t, if self.is_streaming { "处理中" } else { self.status_message.as_str() });
                extend_str(&mut t, " | Tools: ");
                extend_chars(&mut t, decimal_chars(self.tool_count as u64).as_slice());
                extend_str(&mut t, " | Model: ");
                extend_str(&mut t, self.model.as_str());
                r.push(span_chars(t, Style::fg(Color::DarkGray)));
            },
        }
        assert(spans_view(r@) =~= status_line_of(*self, match feedback {
            Some(f) => Some(f@),
            None => None,
        }));
        r
    }

    /// The title line.
    pub fn title_line(&self) -> (r: Vec<Span>)
        ensures
            spans_view(r@) == title_line_of(*self),
    {
        let mut r: Vec<Span> = Vec::new();
        r.push(span("🤖 CodingAgent v1.0", Style::bold_fg(Color::Cyan)));
        r.push(span(" | ", Style::plain()));
        let mut t: Vec<char> = Vec::new();
        extend_str(&mut t, "Session: ");
        extend_str(&mut t, self.session_id.as_str());
        r.push(span_chars(t, Style::fg(Color::White)));
        assert(spans_view(r@) =~= title_line_of(*self));
        r
    }
}

impl Default for StatusBar {
    fn default() -> (r: Self)
        ensures
            initial_status_bar(r),
    {
        Self::new()
    }
}

} // verus!
