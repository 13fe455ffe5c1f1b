//! Mouse-based text selection in the conversation and debug panels.
use vstd::prelude::*;
use crate::text::{chars_of, extend_chars, string_of, subrange_chars};
use crate::ui::tui::styled::{span, span_of, spans_view, Color, Span, Style};

verus! {

/// Logical position within rendered text content.
#[derive(Debug, Clone, Copy, PartialEq, Eq, Structural)]
pub struct TextPosition {
    pub line: usize,
    pub column: usize,
}

/// Which panel a selection belongs to.
#[derive(Debug, Clone, Copy, PartialEq, Eq, Structural)]
pub enum SelectionTarget {
    Conversation,
    DebugPanel,
}

/// Active text selection state.
#[derive(Debug, Clone, Copy, PartialEq, Eq, Structural)]
pub struct TextSelection {
    pub start: TextPosition,
    pub end: TextPosition,
    pub target: SelectionTarget,
    pub dragging: bool,
}

/// A rectangle of terminal cells.
#[derive(Debug, Clone, Copy, PartialEq, Eq, Structural)]
pub struct Rect {
    pub x: u16,
    pub y: u16,
    pub width: u16,
    pub height: u16,
}

/// `a` comes no later than `b` in reading order (line, then column).
pub open spec fn pos_le(a: TextPosition, b: TextPosition) -> bool {
    a.line < b.line || (a.line == b.line && a.column <= b.column)
}

/// The two ends of a selection in reading order.
pub open spec fn ordered(s: TextSelection) -> (TextPosition, TextPosition) {
    if pos_le(s.start, s.end) { (s.start, s.end) } else { (s.end, s.start) }
}

impl TextSelection {
    /// An empty selection at `start` in the given panel, not being dragged.
    pub fn new(start: TextPosition, target: SelectionTarget) -> (r: Self)
        ensures
            r.start == start,
            r.end == start,
            r.target == target,
            !r.dragging,
    {
        TextSelection { end: start, target, dragging: false, start }
    }

    /// Moves the end of the selection.
    pub fn update_end(&mut self, pos: TextPosition)
        ensures
            *final(self) == (TextSelection { end: pos, ..*old(self) }),
    {
        self.end = pos;
    }

    /// The ends of the selection with the earlier one first.
    pub fn normalized(&self) -> (r: (TextPosition, TextPosition))
        ensures
            r == ordered(*self),
    {
        if self.start.line < self.end.line || (self.start.line == self.end.line && self.start.column
            <= self.end.column) {
            (self.start, self.end)
        } else {
            (self.end, self.start)
        }
    }

    /// True when start and end coincide.
    pub fn is_empty(&self) -> (r: bool)
        ensures
            r == (self.start == self.end),
    {
        self.start.line == self.end.line && self.start.column == self.end.column
    }
}

/// The ordered ends of a selection are ordered, and are its two ends.
pub proof fn lemma_normalized_ordered(s: TextSelection)
    ensures
        pos_le(ordered(s).0, ordered(s).1),
        (ordered(s).0 == s.start && ordered(s).1 == s.end) || (ordered(s).0 == s.end && ordered(s).1
            == s.start),
        ordered(TextSelection { start: s.end, end: s.start, ..s }) == ordered(s),
{
}

/// `a - b`, or 0 when `b > a`.
pub open spec fn sub_or_zero(a: int, b: int) -> int {
    if a > b { a - b } else { 0 }
}

/// Where a mouse click at terminal cell (`mouse_x`, `mouse_y`) falls in a
/// bordered panel at `area` showing `content_line_count` lines scrolled by
/// `scroll_offset`: nothing when outside the panel's inside or below the
/// last line.
pub open spec fn click_position(
    mouse_x: u16,
    mouse_y: u16,
    area: Rect,
    content_line_count: nat,
    scroll_offset: nat,
) -> Option<TextPosition> {
    let cx = sub_or_zero(mouse_x as int, area.x + 1);
    let cy = sub_or_zero(mouse_y as int, area.y + 1);
    if cx >= sub_or_zero(area.width as int, 2) || cy >= sub_or_zero(area.height as int, 2) {
        None
    } else if scroll_offset + cy >= content_line_count {
        None
    } else {
        Some(TextPosition { line: (scroll_offset + cy) as usize, column: cx as usize })
    }
}

/// Maps absolute terminal mouse coordinates to a position within the
/// content of a bordered panel.
pub fn mouse_to_text_position(
    mouse_x: u16,
    mouse_y: u16,
    area: Rect,
    content_line_count: usize,
    scroll_offset: usize,
) -> (r: Option<TextPosition>)
    requires
        area.x < u16::MAX,
        area.y < u16::MAX,
        sub_or_zero(mouse_x as int, area.x + 1) < sub_or_zero(area.width as int, 2) && sub_or_zero(
            mouse_y as int,
            area.y + 1,
        ) < sub_or_zero(area.height as int, 2) ==> scroll_offset + sub_or_zero(mouse_y as int, area.y + 1)
            <= usize::MAX,
    ensures
        r == click_position(mouse_x, mouse_y, area, content_line_count as nat, scroll_offset as nat),
{
    let content_x = mouse_x.saturating_sub(area.x + 1);
    let content_y = mouse_y.saturating_sub(area.y + 1);
    let content_width = area.width.saturating_sub(2);
    let content_height = area.height.saturating_sub(2);
    if content_x >= content_width || content_y >= content_height {
        return None;
    }
    let line_index = scroll_offset + content_y as usize;
    if line_index >= content_line_count {
        return None;
    }
    Some(TextPosition { line: line_index, column: content_x as usize })
}

/// The text of a rendered line: its spans' contents in order.
pub open spec fn line_text(spans: Seq<String>) -> Seq<char>
    decreases spans.len(),
{
    if spans.len() == 0 {
        Seq::empty()
    } else {
        line_text(spans.drop_last()) + spans.last()@
    }
}

/// The last line a selection ending at `end_line` covers in `total` lines.
pub open spec fn last_line(end_line: nat, total: nat) -> nat {
    let last = if total > 0 { (total - 1) as nat } else { 0 };
    if end_line <= last { end_line } else { last }
}

/// The selected characters of one line of text.
pub open spec fn line_piece(chars: Seq<char>, idx: nat, start: TextPosition, end: TextPosition) -> Seq<char> {
    let n = chars.len() as int;
    let from = if idx == start.line {
        if start.column <= n { start.column as int } else { n }
    } else {
        0
    };
    let to = if idx == end.line {
        if end.column + 1 <= n { end.column + 1 } else { n }
    } else {
        n
    };
    chars.subrange(from, to)
}

/// The selected text of lines `idx ..= stop`, with a line feed after each
/// line but the last.
pub open spec fn selected_from(
    lines: Seq<Seq<String>>,
    start: TextPosition,
    end: TextPosition,
    stop: nat,
    idx: nat,
) -> Seq<char>
    decreases stop + 1 - idx,
{
    if idx > stop {
        Seq::empty()
    } else {
        let piece = line_piece(line_text(lines[idx as int]), idx, start, end);
        if idx == stop {
            piece
        } else {
            piece + seq!['\n'] + selected_from(lines, start, end, stop, idx + 1)
        }
    }
}

/// The text a selection covers in the rendered lines (each given by its
/// spans' contents).
pub open spec fn selected_text(lines: Seq<Seq<String>>, sel: TextSelection) -> Seq<char> {
    if sel.start == sel.end {
        Seq::empty()
    } else {
        let (s, e) = ordered(sel);
        selected_from(lines, s, e, last_line(e.line as nat, lines.len()), s.line as nat)
    }
}

/// The selection covers a line (and then the rendered text has lines), and
/// the column after its end is representable.
pub open spec fn extractable(lines: Seq<Seq<String>>, sel: TextSelection) -> bool {
    let (s, e) = ordered(sel);
    sel.start == sel.end || ((lines.len() > 0 || s.line > 0) && (e.line < lines.len() ==> e.column
        < usize::MAX))
}

/// The text of one rendered line.
fn line_chars(spans: &Vec<String>) -> (r: Vec<char>)
    ensures
        r@ == line_text(spans@),
{
    let mut r: Vec<char> = Vec::new();
    let mut k: usize = 0;
    while k < spans.len()
        invariant
            k <= spans.len(),
            r@ == line_text(spans@.take(k as int)),
        decreases spans.len() - k,
    {
        let c = chars_of(spans[k].as_str());
        extend_chars(&mut r, c.as_slice());
        assert(spans@.take(k + 1).drop_last() =~= spans@.take(k as int));
        k += 1;
    }
    assert(spans@.take(spans.len() as int) =~= spans@);
    r
}

/// The plain text a selection covers in rendered lines, lines joined by
/// line feeds; empty for an empty selection.
pub fn extract_selected_text(lines: &Vec<Vec<String>>, selection: &TextSelection) -> (r: String)
    requires
        extractable(lines@.map_values(|l: Vec<String>| l@), *selection),
    ensures
        r@ == selected_text(lines@.map_values(|l: Vec<String>| l@), *selection),
{
    let ghost lv = lines@.map_values(|l: Vec<String>| l@);
    if selection.is_empty() {
        return String::new();
    }
    let (start, end) = selection.normalized();
    let total = lines.len();
    let last = if total > 0 { total - 1 } else { 0 };
    let stop = if end.line <= last { end.line } else { last };
    let mut result: Vec<char> = Vec::new();
    if start.line > stop {
        return String::new();
    }
    let mut idx = start.line;
    while idx <= stop
        invariant
            start.line <= idx <= stop + 1,
            stop < total,
            stop <= end.line,
            pos_le(start, end),
            lv == lines@.map_values(|l: Vec<String>| l@),
            lv.len() == total,
            end.line <= stop ==> end.column < usize::MAX,
            result@ + selected_from(lv, start, end, stop as nat, idx as nat) == selected_from(
                lv,
                start,
                end,
                stop as nat,
                start.line as nat,
            ),
        decreases stop + 1 - idx,
    {
        let chars = line_chars(&lines[idx]);
        assert(lv[idx as int] == lines@[idx as int]@);
        let n = chars.len();
        let from = if idx == start.line {
            if start.column <= n { start.column } else { n }
        } else {
            0
        };
        let to = if idx == end.line {
            if end.column + 1 <= n { end.column + 1 } else { n }
        } else {
            n
        };
        let piece = subrange_chars(chars.as_slice(), from, to);
        let ghost before = result@;
        extend_chars(&mut result, piece.as_slice());
        if idx != stop {
            result.push('\n');
            assert(result@ + selected_from(lv, start, end, stop as nat, (idx + 1) as nat) =~= before
                + selected_from(lv, start, end, stop as nat, idx as nat));
        } else {
            assert(selected_from(lv, start, end, stop as nat, (idx + 1) as nat) =~= Seq::<char>::empty());
            assert(result@ + selected_from(lv, start, end, stop as nat, (idx + 1) as nat) =~= before
                + selected_from(lv, start, end, stop as nat, idx as nat));
        }
        idx = idx + 1;
    }
    assert(selected_from(lv, start, end, stop as nat, idx as nat) =~= Seq::<char>::empty());
    assert(result@ =~= result@ + selected_from(lv, start, end, stop as nat, idx as nat));
    string_of(result.as_slice())
}

/// Name for the display width in terminal columns that
/// `unicode_width::UnicodeWidthStr::width` gives a text.
pub uninterp spec fn display_width(s: Seq<char>) -> usize;

/// `UnicodeWidthStr::width` of `unicode_width`.
#[verifier::external_body]
fn str_width(s: &str) -> (r: usize)
    ensures
        r == display_width(s@),
{
    unicode_width::UnicodeWidthStr::width(s)
}

/// `a + b`, or `usize::MAX` when that does not fit.
pub open spec fn capped_sum(a: int, b: int) -> int {
    if a + b <= usize::MAX { a + b } else { usize::MAX as int }
}

/// The columns taken by the first `k` spans of a line, summed with
/// saturation at `usize::MAX`.
pub open spec fn columns_before(line: Seq<(Seq<char>, Style)>, k: int) -> int
    decreases k,
{
    if k <= 0 {
        0
    } else {
        capped_sum(columns_before(line, k - 1), display_width(line[k - 1].0) as int)
    }
}

/// The background of selected text.
pub open spec fn selection_bg() -> Color {
    Color::Rgb(80, 80, 120)
}

/// Whether span `k` of line `idx` overlaps the selection from `start` to
/// `end` (in reading order): it ends after the first selected column and
/// starts no later than the last one.
pub open spec fn span_selected(line: Seq<(Seq<char>, Style)>, k: int, idx: nat, start: TextPosition, end: TextPosition) -> bool {
    let from = columns_before(line, k);
    let to = columns_before(line, k + 1);
    &&& to > (if idx == start.line { start.column as int } else { 0 })
    &&& (if idx == end.line { from <= end.column } else { from < usize::MAX })
}

/// Line `idx` with the background of its selected spans set.
pub open spec fn highlighted_line(line: Seq<(Seq<char>, Style)>, idx: nat, start: TextPosition, end: TextPosition) -> Seq<(Seq<char>, Style)> {
    Seq::new(
        line.len(),
        |k: int|
            if span_selected(line, k, idx, start, end) {
                (line[k].0, Style { bg: Some(selection_bg()), ..line[k].1 })
            } else {
                line[k]
            },
    )
}

/// The line `idx` of `text` once a selection is shown: lines from the
/// selection's first to its last get their selected spans highlighted; an
/// empty selection shows nothing.
pub open spec fn shown_line(text: Seq<Seq<(Seq<char>, Style)>>, sel: TextSelection, idx: int) -> Seq<(Seq<char>, Style)> {
    let (start, end) = ordered(sel);
    if sel.start != sel.end && start.line <= idx <= end.line {
        highlighted_line(text[idx], idx as nat, start, end)
    } else {
        text[idx]
    }
}

/// Highlights the selected part of rendered lines (see `shown_line`).
pub fn apply_selection_highlight(text: &mut Vec<Vec<Span>>, selection: &TextSelection)
    ensures
        final(text)@.len() == old(text)@.len(),
        forall|i: int|
            0 <= i < old(text)@.len() ==> spans_view(#[trigger] final(text)@[i]@) == shown_line(
                old(text)@.map_values(|l: Vec<Span>| spans_view(l@)),
                *selection,
                i,
            ),
{
    let ghost views = old(text)@.map_values(|l: Vec<Span>| spans_view(l@));
    if selection.is_empty() {
        return;
    }
    let (start, end) = selection.normalized();
    let mut idx: usize = start.line;
    while idx < text.len() && idx <= end.line
        invariant
            (start, end) == ordered(*selection),
            selection.start != selection.end,
            text@.len() == views.len(),
            start.line <= idx,
            forall|i: int|
                0 <= i < text@.len() ==> spans_view(#[trigger] text@[i]@) == (if i < idx {
                    shown_line(views, *selection, i)
                } else {
                    views[i]
                }),
        decreases text@.len() - idx,
    {
        let ghost lv = views[idx as int];
        let n = text[idx].len();
        let mut line: Vec<Span> = Vec::new();
        let mut cumulative: usize = 0;
        let mut k: usize = 0;
        assert(spans_view(text@[idx as int]@) == lv);
        while k < n
            invariant
                n == lv.len(),
                idx < text@.len(),
                text@[idx as int]@.len() == n,
                spans_view(text@[idx as int]@) == lv,
                k <= n,
                cumulative == columns_before(lv, k as int),
                spans_view(line@) == highlighted_line(lv, idx as nat, start, end).take(k as int),
            decreases n - k,
        {
            let s = &text[idx][k];
            assert(span_of(*s) == lv[k as int]);
            let w = str_width(s.content.as_str());
            let span_start = cumulative;
            let span_end = cumulative.saturating_add(w);
            let from_col = if idx == start.line { start.column } else { 0 };
            let overlaps = span_end > from_col && if idx == end.line {
                span_start <= end.column
            } else {
                span_start < usize::MAX
            };
            assert(columns_before(lv, k + 1) == capped_sum(columns_before(lv, k as int), w as int));
            assert(span_end == columns_before(lv, k + 1));
            assert(overlaps == span_selected(lv, k as int, idx as nat, start, end));
            let style = if overlaps { Style { bg: Some(Color::Rgb(80, 80, 120)), ..s.style } } else { s.style };
            let ghost prev = line@;
            let ns = span(s.content.as_str(), style);
            assert(span_of(ns) == highlighted_line(lv, idx as nat, start, end)[k as int]);
            line.push(ns);
            proof {
                assert(line@ == prev.push(ns));
                assert(spans_view(line@) =~= spans_view(prev).push(span_of(ns)));
                assert(spans_view(line@) =~= highlighted_line(lv, idx as nat, start, end).take(k + 1));
            }
            cumulative = span_end;
            k = k + 1;
        }
        assert(highlighted_line(lv, idx as nat, start, end).take(n as int) =~= highlighted_line(lv, idx as nat, start, end));
        text.set(idx, line);
        idx = idx + 1;
    }
}

} // verus!
