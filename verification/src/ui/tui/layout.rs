//! Where the widgets of the terminal UI go on the screen.
use vstd::prelude::*;
use crate::ui::tui::selection::Rect;
use ratatui::layout::{Direction, Layout};

verus! {

/// A size constraint on one band of a split area.
#[derive(Debug, Clone, Copy, PartialEq, Eq, Structural)]
pub enum Constraint {
    /// Exactly this many rows.
    Length(u16),
    /// At least this many rows.
    Min(u16),
}

/// Name for the bands that `ratatui`'s vertical `Layout::split` cuts an
/// area into under the given constraints.
pub uninterp spec fn vertical_bands(area: Rect, constraints: Seq<Constraint>) -> Seq<Rect>;

/// `ratatui::layout::Layout::split` in the vertical direction: one band per
/// constraint.
#[verifier::external_body]
fn split_vertical(area: Rect, constraints: &[Constraint]) -> (r: Vec<Rect>)
    ensures
        r@ == vertical_bands(area, constraints@),
        r@.len() == constraints@.len(),
{
    let cs: Vec<ratatui::layout::Constraint> = constraints.iter().map(|c| match c {
        Constraint::Length(n) => ratatui::layout::Constraint::Length(*n),
        Constraint::Min(n) => ratatui::layout::Constraint::Min(*n),
    }).collect();
    let area = ratatui::layout::Rect { x: area.x, y: area.y, width: area.width, height: area.height };
    let bands = Layout::default().direction(Direction::Vertical).constraints(cs).split(area);
    bands.iter().map(|b| Rect { x: b.x, y: b.y, width: b.width, height: b.height }).collect()
}

/// The areas of the screen.
#[derive(Debug, Clone, Copy, PartialEq, Eq, Structural)]
pub struct LayoutAreas {
    pub title: Rect,
    pub conversation: Rect,
    pub input: Rect,
    pub input_status: Rect,
    pub status: Rect,
    /// Where the file popup goes.
    pub popup: Option<Rect>,
}

/// The screen's bands from the top: a 3-row title, the conversation (at
/// least 10 rows), a 3-row input box, the input status row and the status
/// row.
pub open spec fn screen_constraints() -> Seq<Constraint> {
    seq![Constraint::Length(3), Constraint::Min(10), Constraint::Length(3), Constraint::Length(1), Constraint::Length(1)]
}

/// `a - b`, or 0 when `b > a`.
pub open spec fn sat_sub16(a: int, b: int) -> int {
    if a > b { a - b } else { 0 }
}

/// The lowest row of an area plus one, at most `u16::MAX`.
pub open spec fn bottom(r: Rect) -> int {
    if r.y + r.height <= u16::MAX { r.y + r.height } else { u16::MAX as int }
}

/// The layout of a screen of the given size: the bands in order, and a
/// 50 by 10 popup two columns from the left whose lower edge sits one row
/// above the conversation's bottom.
pub open spec fn layout_of(size: Rect) -> LayoutAreas {
    let bands = vertical_bands(size, screen_constraints());
    LayoutAreas {
        title: bands[0],
        conversation: bands[1],
        input: bands[2],
        input_status: bands[3],
        status: bands[4],
        popup: Some(Rect { x: 2, y: sat_sub16(bottom(bands[1]), 11) as u16, width: 50, height: 10 }),
    }
}

/// Calculates the layout areas for a screen of the given size (see
/// `layout_of`).
pub fn calculate_layout(size: Rect) -> (r: LayoutAreas)
    ensures
        r == layout_of(size),
{
    let constraints: [Constraint; 5] = [
        Constraint::Length(3),
        Constraint::Min(10),
        Constraint::Length(3),
        Constraint::Length(1),
        Constraint::Length(1),
    ];
    assert(constraints@ =~= screen_constraints());
    let chunks = split_vertical(size, &constraints);
    let popup_height: u16 = 10;
    let popup_width: u16 = 50;
    let conv = chunks[1];
    let conv_bottom = conv.y.saturating_add(conv.height);
    let popup = Some(Rect { x: 2, y: conv_bottom.saturating_sub(popup_height + 1), width: popup_width, height: popup_height });
    LayoutAreas {
        title: chunks[0],
        conversation: chunks[1],
        input: chunks[2],
        input_status: chunks[3],
        status: chunks[4],
        popup,
    }
}

} // verus!
