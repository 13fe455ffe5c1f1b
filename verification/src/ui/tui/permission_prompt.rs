//! Permission prompt: a modal overlay asking the user to allow or deny a
//! tool execution.
use vstd::prelude::*;
use crate::ui::tui::selection::{sub_or_zero, Rect};
use crate::ui::tui::styled::{fg_style, span, spans_view, Color, Span, Style};

verus! {

/// The user's response to a permission prompt.
#[derive(Debug, Clone, Copy, PartialEq, Eq, Structural)]
pub enum PermissionResponse {
    AllowOnce,
    AlwaysAllow,
    Deny,
}

/// State for the permission prompt overlay.
pub struct PermissionPrompt {
    pub tool_name: String,
    pub description: String,
    pub active: bool,
}

/// What the prompt draws: its box and its lines.
pub struct PromptView {
    pub area: Rect,
    pub lines: Vec<Vec<Span>>,
}

/// The box of the prompt in `area`: at most 60 by 10 cells, leaving a
/// margin of two on each side, centred.
pub open spec fn prompt_area(area: Rect) -> Rect {
    let w = if 60 <= sub_or_zero(area.width as int, 4) { 60 } else { sub_or_zero(area.width as int, 4) };
    let h = if 10 <= sub_or_zero(area.height as int, 4) { 10 } else { sub_or_zero(area.height as int, 4) };
    Rect {
        x: (area.x + (area.width - w) / 2) as u16,
        y: (area.y + (area.height - h) / 2) as u16,
        width: w as u16,
        height: h as u16,
    }
}

/// The lines of the prompt for a tool and a description.
pub open spec fn prompt_lines(tool_name: Seq<char>, description: Seq<char>) -> Seq<Seq<(Seq<char>, Style)>> {
    seq![
        seq![("Permission Required"@, Style { fg: Some(Color::Yellow), bg: None, bold: true, dim: false })],
        Seq::empty(),
        seq![("Tool: "@, fg_style(Color::Gray)), (tool_name, Style { fg: Some(Color::White), bg: None, bold: true, dim: false })],
        Seq::empty(),
        seq![(description, fg_style(Color::Gray))],
        Seq::empty(),
        seq![("[Y] Allow   [A] Always Allow   [N] Deny"@, fg_style(Color::Cyan))],
    ]
}

impl PermissionPrompt {
    /// An inactive prompt.
    pub fn new() -> (r: Self)
        ensures
            r.tool_name@ == Seq::<char>::empty(),
            r.description@ == Seq::<char>::empty(),
            !r.active,
    {
        PermissionPrompt { tool_name: String::new(), description: String::new(), active: false }
    }

    /// Shows the prompt for a tool call.
    pub fn show(&mut self, tool_name: String, description: String)
        ensures
            final(self).tool_name == tool_name,
            final(self).description == description,
            final(self).active,
    {
        self.tool_name = tool_name;
        self.description = description;
        self.active = true;
    }

    /// Hides the prompt.
    pub fn dismiss(&mut self)
        ensures
            !final(self).active,
            final(self).tool_name == old(self).tool_name,
            final(self).description == old(self).description,
    {
        self.active = false;
    }

    /// What the prompt draws over `area`: nothing while inactive.
    pub fn render_view(&self, area: Rect) -> (r: Option<PromptView>)
        requires
            area.x + (area.width - (if 60 <= sub_or_zero(area.width as int, 4) { 60 } else { sub_or_zero(area.width as int, 4) })) / 2 <= u16::MAX,
            area.y + (area.height - (if 10 <= sub_or_zero(area.height as int, 4) { 10 } else { sub_or_zero(area.height as int, 4) })) / 2 <= u16::MAX,
        ensures
            !self.active ==> r is None,
            self.active ==> (r matches Some(v) && v.area == prompt_area(area) && v.lines@.len() == 7
                && forall|i: int| 0 <= i < 7 ==> spans_view(#[trigger] v.lines@[i]@) == prompt_lines(self.tool_name@, self.description@)[i]),
    {
        if !self.active {
            return None;
        }
        let avail_w = area.width.saturating_sub(4);
        let avail_h = area.height.saturating_sub(4);
        let width: u16 = if 60 <= avail_w { 60 } else { avail_w };
        let height: u16 = if 10 <= avail_h { 10 } else { avail_h };
        let x = area.x + (area.width.saturating_sub(width)) / 2;
        let y = area.y + (area.height.saturating_sub(height)) / 2;
        let prompt = Rect { x, y, width, height };
        let mut lines: Vec<Vec<Span>> = Vec::new();
        let mut l0: Vec<Span> = Vec::new();
        l0.push(span("Permission Required", Style::bold_fg(Color::Yellow)));
        lines.push(l0);
        lines.push(Vec::new());
        let mut l2: Vec<Span> = Vec::new();
        l2.push(span("Tool: ", Style::fg(Color::Gray)));
        l2.push(span(self.tool_name.as_str(), Style::bold_fg(Color::White)));
        lines.push(l2);
        lines.push(Vec::new());
        let mut l4: Vec<Span> = Vec::new();
        l4.push(span(self.description.as_str(), Style::fg(Color::Gray)));
        lines.push(l4);
        lines.push(Vec::new());
        let mut l6: Vec<Span> = Vec::new();
        l6.push(span("[Y] Allow   [A] Always Allow   [N] Deny", Style::fg(Color::Cyan)));
        lines.push(l6);
        proof {
            let want = prompt_lines(self.tool_name@, self.description@);
            assert(spans_view(lines@[0]@) =~= want[0]);
            assert(spans_view(lines@[1]@) =~= want[1]);
            assert(spans_view(lines@[2]@) =~= want[2]);
            assert(spans_view(lines@[3]@) =~= want[3]);
            assert(spans_view(lines@[4]@) =~= want[4]);
            assert(spans_view(lines@[5]@) =~= want[5]);
            assert(spans_view(lines@[6]@) =~= want[6]);
        }
        Some(PromptView { area: prompt, lines })
    }
}

impl Default for PermissionPrompt {
    fn default() -> (r: Self)
        ensures
            r.tool_name@ == Seq::<char>::empty(),
            r.description@ == Seq::<char>::empty(),
            !r.active,
    {
        Self::new()
    }
}

} // verus!
