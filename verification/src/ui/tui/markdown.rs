//! Markdown rendering for the terminal: the events of a Markdown parse
//! turned into styled lines.
use vstd::prelude::*;
use crate::text::{chars_of, extend_chars, extend_str, lines, lines_of, string_of, views};
use crate::ui::tui::styled::{dim_style, fg_style, span, span_chars, spans_view, Color, Span, Style};
use pulldown_cmark::{CodeBlockKind, Event, Parser, Tag, TagEnd};

verus! {

/// An event of a Markdown parse, as the renderer reads it.
#[derive(Debug)]
pub enum MdEvent {
    StartParagraph,
    /// A heading of the given level (1 to 6).
    StartHeading(u8),
    StartBlockQuote,
    /// A code block with its info string (empty for an indented block).
    StartCodeBlock(String),
    StartList,
    StartItem,
    /// A table with the given number of columns.
    StartTable(usize),
    StartTableHead,
    StartTableRow,
    StartTableCell,
    /// Any other opening tag (emphasis, links, ...).
    StartOther,
    EndParagraph,
    EndHeading,
    EndBlockQuote,
    EndCodeBlock,
    EndTable,
    EndTableHead,
    EndTableRow,
    /// Any other closing tag.
    EndOther,
    Text(String),
    Code(String),
    SoftBreak,
    HardBreak,
    Rule,
    TaskListMarker(bool),
    /// Raw HTML, skipped.
    Html,
    InlineMath(String),
    DisplayMath(String),
    /// Anything else, skipped.
    Other,
}

/// A styled line: its spans' texts and styles.
pub type LineView = Seq<(Seq<char>, Style)>;

/// The renderer's state between events: the finished lines, the line being
/// built, whether inside a code block, the block quote depth and the number
/// of columns of the current table.
pub struct MdState {
    pub lines: Seq<LineView>,
    pub current: LineView,
    pub code: bool,
    pub quote: nat,
    pub columns: nat,
}

/// `s` repeated `n` times.
pub open spec fn repeat(s: Seq<char>, n: nat) -> Seq<char>
    decreases n,
{
    if n == 0 {
        Seq::empty()
    } else {
        repeat(s, (n - 1) as nat) + s
    }
}

/// The lines with the line being built added when it is not empty.
pub open spec fn flush(s: MdState) -> MdState {
    if s.current.len() > 0 {
        MdState { lines: s.lines.push(s.current), current: Seq::empty(), ..s }
    } else {
        s
    }
}

pub open spec fn gray() -> Style {
    fg_style(Color::DarkGray)
}

pub open spec fn bold_cyan() -> Style {
    Style { fg: Some(Color::Cyan), bg: None, bold: true, dim: false }
}

/// The fence line opening a code block.
pub open spec fn fence(info: Seq<char>) -> LineView {
    seq![("```"@ + info, gray())]
}

/// The separator line under a table head.
pub open spec fn table_separator(columns: nat) -> LineView {
    seq![("|"@, gray())] + Seq::new(columns, |i: int| ("---|"@, gray()))
}

/// How one event changes the renderer's state.
pub open spec fn md_step(s: MdState, e: MdEvent, width: nat) -> MdState {
    match e {
        MdEvent::StartHeading(level) => {
            let f = flush(s);
            MdState { current: f.current.push((repeat("#"@, level as nat) + " "@, bold_cyan())), ..f }
        },
        MdEvent::StartBlockQuote => flush(MdState { quote: s.quote + 1, ..s }),
        MdEvent::StartCodeBlock(info) => {
            let f = flush(MdState { code: true, ..s });
            MdState { lines: f.lines.push(fence(info@)), ..f }
        },
        MdEvent::StartItem => {
            let f = flush(s);
            MdState { current: f.current.push(("• "@, fg_style(Color::Yellow))), ..f }
        },
        MdEvent::StartTable(n) => MdState { columns: n as nat, ..s },
        MdEvent::EndParagraph | MdEvent::EndHeading => {
            let f = flush(s);
            MdState { lines: f.lines.push(Seq::empty()), ..f }
        },
        MdEvent::EndBlockQuote => {
            let f = flush(s);
            MdState {
                lines: f.lines.push(Seq::empty()),
                quote: if f.quote > 0 { (f.quote - 1) as nat } else { 0 },
                ..f
            }
        },
        MdEvent::EndCodeBlock => MdState {
            lines: s.lines.push(seq![("```"@, gray())]).push(Seq::empty()),
            code: false,
            ..s
        },
        MdEvent::EndTable => MdState { lines: s.lines.push(Seq::empty()), ..s },
        MdEvent::EndTableHead => MdState { lines: s.lines.push(table_separator(s.columns)), ..s },
        MdEvent::EndTableRow => MdState { lines: s.lines.push(seq![("|"@, gray())]), ..s },
        MdEvent::Text(t) => if s.code {
            MdState { lines: s.lines + lines(t@).map_values(|l: Seq<char>| seq![(" "@ + l, fg_style(Color::Cyan))]), ..s }
        } else if s.quote > 0 {
            MdState {
                current: s.current.push((repeat("│ "@, s.quote), dim_style(Color::DarkGray))).push(
                    (t@, dim_style(Color::DarkGray)),
                ),
                ..s
            }
        } else {
            MdState { current: s.current.push((t@, fg_style(Color::White))), ..s }
        },
        MdEvent::Code(c) => MdState { current: s.current.push(("`"@ + c@ + "`"@, fg_style(Color::Yellow))), ..s },
        MdEvent::SoftBreak | MdEvent::HardBreak => flush(s),
        MdEvent::Rule => {
            let f = flush(s);
            MdState { lines: f.lines.push(seq![(repeat("─"@, if width < 40 { width } else { 40 }), gray())]), ..f }
        },
        MdEvent::TaskListMarker(checked) => MdState {
            current: s.current.push((if checked { "[x] "@ } else { "[ ] "@ }, fg_style(Color::Green))),
            ..s
        },
        MdEvent::InlineMath(m) => MdState { current: s.current.push(("$"@ + m@ + "$"@, fg_style(Color::Magenta))), ..s },
        MdEvent::DisplayMath(m) => {
            let f = flush(s);
            MdState { lines: f.lines.push(seq![("$$"@ + m@ + "$$"@, fg_style(Color::Magenta))]), ..f }
        },
        _ => s,
    }
}

/// The state after the events, from an empty start.
pub open spec fn md_run(events: Seq<MdEvent>, width: nat) -> MdState
    decreases events.len(),
{
    if events.len() == 0 {
        MdState { lines: Seq::empty(), current: Seq::empty(), code: false, quote: 0, columns: 0 }
    } else {
        md_step(md_run(events.drop_last(), width), events.last(), width)
    }
}

/// The rendered lines: those of the run, and the line being built last.
pub open spec fn rendered(events: Seq<MdEvent>, width: nat) -> Seq<LineView> {
    flush(md_run(events, width)).lines
}

/// Law: a line break (soft or hard) ends the line being built.  After it
/// nothing is being built, the line built so far (if any) is a finished
/// line of its own, and nothing else changes; so no rendered line holds
/// text from both sides of a break.
pub proof fn law_break_ends_line(events: Seq<MdEvent>, e: MdEvent, width: nat)
    requires
        e is SoftBreak || e is HardBreak,
    ensures
        ({
            let before = md_run(events, width);
            let after = md_run(events.push(e), width);
            &&& after.current.len() == 0
            &&& before.current.len() > 0 ==> after.lines == before.lines.push(before.current)
            &&& before.current.len() == 0 ==> after.lines == before.lines
            &&& after.code == before.code && after.quote == before.quote && after.columns == before.columns
        }),
{
    assert(events.push(e).drop_last() =~= events);
}

/// The content of rendered lines.
pub open spec fn lines_view(v: Seq<Vec<Span>>) -> Seq<LineView> {
    v.map_values(|l: Vec<Span>| spans_view(l@))
}

/// Markdown renderer for the terminal.
pub struct MarkdownRenderer;

/// The renderer's working state.
struct Builder {
    lines: Vec<Vec<Span>>,
    current: Vec<Span>,
    code: bool,
    quote: usize,
    columns: usize,
}

impl Builder {
    spec fn view(&self) -> MdState {
        MdState {
            lines: lines_view(self.lines@),
            current: spans_view(self.current@),
            code: self.code,
            quote: self.quote as nat,
            columns: self.columns as nat,
        }
    }

    fn push_line(&mut self, line: Vec<Span>)
        ensures
            final(self).view() == (MdState { lines: old(self).view().lines.push(spans_view(line@)), ..old(self).view() }),
    {
        self.lines.push(line);
        assert(lines_view(self.lines@) =~= lines_view(old(self).lines@).push(spans_view(line@)));
    }

    fn push_span(&mut self, s: Span)
        ensures
            final(self).view() == (MdState { current: old(self).view().current.push((s.content@, s.style)), ..old(self).view() }),
    {
        self.current.push(s);
        assert(spans_view(self.current@) =~= spans_view(old(self).current@).push((s.content@, s.style)));
    }

    fn flush(&mut self)
        ensures
            final(self).view() == flush(old(self).view()),
    {
        if self.current.len() > 0 {
            let mut line: Vec<Span> = Vec::new();
            std::mem::swap(&mut line, &mut self.current);
            self.push_line(line);
            assert(spans_view(self.current@) =~= Seq::<(Seq<char>, Style)>::empty());
        }
    }

    fn step(&mut self, e: &MdEvent, width: usize)
        requires
            old(self).quote < usize::MAX,
        ensures
            final(self).view() == md_step(old(self).view(), *e, width as nat),
            final(self).quote <= old(self).quote + 1,
    {
        match e {
            MdEvent::StartHeading(level) => {
                self.flush();
                let h = repeat_chars("#", *level as usize);
                let mut t = h;
                extend_str(&mut t, " ");
                self.push_span(span_chars(t, Style::bold_fg(Color::Cyan)));
            },
            MdEvent::StartBlockQuote => {
                self.quote = self.quote + 1;
                self.flush();
            },
            MdEvent::StartCodeBlock(info) => {
                self.code = true;
                self.flush();
                let mut t = chars_of("```");
                extend_str(&mut t, info.as_str());
                let mut line: Vec<Span> = Vec::new();
                line.push(span_chars(t, Style::fg(Color::DarkGray)));
                assert(spans_view(line@) =~= fence(info@));
                self.push_line(line);
            },
            MdEvent::StartItem => {
                self.flush();
                self.push_span(span("• ", Style::fg(Color::Yellow)));
            },
            MdEvent::StartTable(n) => {
                self.columns = *n;
            },
            MdEvent::EndParagraph | MdEvent::EndHeading => {
                self.flush();
                self.push_line(Vec::new());
                assert(spans_view(Seq::<Span>::empty()) =~= Seq::<(Seq<char>, Style)>::empty());
            },
            MdEvent::EndBlockQuote => {
                self.flush();
                self.quote = if self.quote > 0 { self.quote - 1 } else { 0 };
                self.push_line(Vec::new());
                assert(spans_view(Seq::<Span>::empty()) =~= Seq::<(Seq<char>, Style)>::empty());
            },
            MdEvent::EndCodeBlock => {
                let mut line: Vec<Span> = Vec::new();
                line.push(span("```", Style::fg(Color::DarkGray)));
                assert(spans_view(line@) =~= seq![("```"@, gray())]);
                self.push_line(line);
                self.push_line(Vec::new());
                assert(spans_view(Seq::<Span>::empty()) =~= Seq::<(Seq<char>, Style)>::empty());
                self.code = false;
            },
            MdEvent::EndTable => {
                self.push_line(Vec::new());
                assert(spans_view(Seq::<Span>::empty()) =~= Seq::<(Seq<char>, Style)>::empty());
            },
            MdEvent::EndTableHead => {
                let mut line: Vec<Span> = Vec::new();
                line.push(span("|", Style::fg(Color::DarkGray)));
                let mut k: usize = 0;
                while k < self.columns
                    invariant
                        k <= self.columns,
                        spans_view(line@) == seq![("|"@, gray())] + Seq::new(k as nat, |i: int| ("---|"@, gray())),
                    decreases self.columns - k,
                {
                    let ghost before = spans_view(line@);
                    line.push(span("---|", Style::fg(Color::DarkGray)));
                    assert(spans_view(line@) =~= before.push(("---|"@, gray())));
                    assert(seq![("|"@, gray())] + Seq::new((k + 1) as nat, |i: int| ("---|"@, gray())) =~= (seq![
                        ("|"@, gray()),
                    ] + Seq::new(k as nat, |i: int| ("---|"@, gray()))).push(("---|"@, gray())));
                    k += 1;
                }
                self.push_line(line);
            },
            MdEvent::EndTableRow => {
                let mut line: Vec<Span> = Vec::new();
                line.push(span("|", Style::fg(Color::DarkGray)));
                assert(spans_view(line@) =~= seq![("|"@, gray())]);
                self.push_line(line);
            },
            MdEvent::Text(t) => {
                if self.code {
                    let c = chars_of(t.as_str());
                    let ls = lines_of(c.as_slice());
                    let mut k: usize = 0;
                    let ghost base = self.view();
                    let ghost target = lines(t@).map_values(|l: Seq<char>| seq![(" "@ + l, fg_style(Color::Cyan))]);
                    while k < ls.len()
                        invariant
                            k <= ls@.len(),
                            views(ls@) == lines(t@),
                            self.view() == (MdState { lines: base.lines + target.take(k as int), ..base }),
                            target == lines(t@).map_values(|l: Seq<char>| seq![(" "@ + l, fg_style(Color::Cyan))]),
                        decreases ls.len() - k,
                    {
                        let mut piece = chars_of(" ");
                        extend_chars(&mut piece, ls[k].as_slice());
                        let mut line: Vec<Span> = Vec::new();
                        line.push(span_chars(piece, Style::fg(Color::Cyan)));
                        assert(views(ls@)[k as int] == ls@[k as int]@);
                        assert(spans_view(line@) =~= target[k as int]);
                        self.push_line(line);
                        assert(base.lines + target.take(k + 1) =~= (base.lines + target.take(k as int)).push(target[k as int]));
                        k += 1;
                    }
                    assert(target.take(ls@.len() as int) =~= target);
                } else if self.quote > 0 {
                    let prefix = repeat_chars("│ ", self.quote);
                    self.push_span(span_chars(prefix, Style::dim_fg(Color::DarkGray)));
                    self.push_span(span(t.as_str(), Style::dim_fg(Color::DarkGray)));
                } else {
                    self.push_span(span(t.as_str(), Style::fg(Color::White)));
                }
            },
            MdEvent::Code(c) => {
                let mut t = chars_of("`");
                extend_str(&mut t, c.as_str());
                extend_str(&mut t, "`");
                self.push_span(span_chars(t, Style::fg(Color::Yellow)));
            },
            MdEvent::SoftBreak | MdEvent::HardBreak => {
                self.flush();
            },
            MdEvent::Rule => {
                self.flush();
                let n = if width < 40 { width } else { 40 };
                let mut line: Vec<Span> = Vec::new();
                line.push(span_chars(repeat_chars("─", n), Style::fg(Color::DarkGray)));
                assert(spans_view(line@) =~= seq![(repeat("─"@, n as nat), gray())]);
                self.push_line(line);
            },
            MdEvent::TaskListMarker(checked) => {
                let m = if *checked { "[x] " } else { "[ ] " };
                self.push_span(span(m, Style::fg(Color::Green)));
            },
            MdEvent::InlineMath(m) => {
                let mut t = chars_of("$");
                extend_str(&mut t, m.as_str());
                extend_str(&mut t, "$");
                self.push_span(span_chars(t, Style::fg(Color::Magenta)));
            },
            MdEvent::DisplayMath(m) => {
                self.flush();
                let mut t = chars_of("$$");
                extend_str(&mut t, m.as_str());
                extend_str(&mut t, "$$");
                let mut line: Vec<Span> = Vec::new();
                line.push(span_chars(t, Style::fg(Color::Magenta)));
                assert(spans_view(line@) =~= seq![("$$"@ + m@ + "$$"@, fg_style(Color::Magenta))]);
                self.push_line(line);
            },
            _ => {},
        }
    }
}

/// `s` repeated `n` times.
pub(crate) fn repeat_chars(s: &str, n: usize) -> (r: Vec<char>)
    ensures
        r@ == repeat(s@, n as nat),
{
    let mut r: Vec<char> = Vec::new();
    let mut k: usize = 0;
    while k < n
        invariant
            k <= n,
            r@ == repeat(s@, k as nat),
        decreases n - k,
    {
        extend_str(&mut r, s);
        k += 1;
    }
    r
}

impl MarkdownRenderer {
    /// Renders the events of a Markdown parse as styled lines, `width`
    /// cells wide for horizontal rules (at most 40).  Headings, items,
    /// quotes, code blocks, tables and math get their markers and colours;
    /// blocks are followed by a blank line.
    pub fn render_events(events: &[MdEvent], width: usize) -> (r: Vec<Vec<Span>>)
        ensures
            lines_view(r@) == rendered(events@, width as nat),
    {
        let mut b = Builder { lines: Vec::new(), current: Vec::new(), code: false, quote: 0, columns: 0 };
        let mut i: usize = 0;
        proof {
            assert(lines_view(b.lines@) =~= Seq::<LineView>::empty());
            assert(spans_view(b.current@) =~= Seq::<(Seq<char>, Style)>::empty());
            assert(events@.take(0) =~= Seq::<MdEvent>::empty());
        }
        while i < events.len()
            invariant
                i <= events@.len(),
                b.quote <= i,
                b.view() == md_run(events@.take(i as int), width as nat),
            decreases events.len() - i,
        {
            assert(events@.take(i + 1).drop_last() =~= events@.take(i as int));
            b.step(&events[i], width);
            i += 1;
        }
        assert(events@.take(events@.len() as int) =~= events@);
        b.flush();
        b.lines
    }
}

/// `pulldown_cmark::Event`.
#[verifier::external_type_specification]
#[verifier::external_body]
pub struct ExMarkdownEvent<'a>(pulldown_cmark::Event<'a>);

/// `pulldown_cmark::Tag`.
#[verifier::external_type_specification]
#[verifier::external_body]
pub struct ExMarkdownTag<'a>(pulldown_cmark::Tag<'a>);

/// `pulldown_cmark::TagEnd`.
#[verifier::external_type_specification]
#[verifier::external_body]
pub struct ExMarkdownTagEnd(pulldown_cmark::TagEnd);

/// Name for the events `pulldown_cmark::Parser::new` gives for a text
/// (default options), as the renderer reads them.
pub uninterp spec fn markdown_events(text: Seq<char>) -> Seq<MdEvent>;

/// A `pulldown_cmark` opening tag as the renderer's event, one arm per
/// variant it tells apart.
#[verifier::external_body]
fn start_event(tag: Tag<'_>) -> MdEvent {
    match tag {
        Tag::Paragraph => MdEvent::StartParagraph,
        Tag::Heading { level, .. } => MdEvent::StartHeading(level as u8),
        Tag::BlockQuote(_) => MdEvent::StartBlockQuote,
        Tag::CodeBlock(CodeBlockKind::Fenced(info)) => MdEvent::StartCodeBlock(info.to_string()),
        Tag::CodeBlock(CodeBlockKind::Indented) => MdEvent::StartCodeBlock(String::new()),
        Tag::List(_) => MdEvent::StartList,
        Tag::Item => MdEvent::StartItem,
        Tag::Table(alignments) => MdEvent::StartTable(alignments.len()),
        Tag::TableHead => MdEvent::StartTableHead,
        Tag::TableRow => MdEvent::StartTableRow,
        Tag::TableCell => MdEvent::StartTableCell,
        _ => MdEvent::StartOther,
    }
}

/// A `pulldown_cmark` closing tag as the renderer's event.
#[verifier::external_body]
fn end_event(tag: TagEnd) -> MdEvent {
    match tag {
        TagEnd::Paragraph => MdEvent::EndParagraph,
        TagEnd::Heading(_) => MdEvent::EndHeading,
        TagEnd::BlockQuote(_) => MdEvent::EndBlockQuote,
        TagEnd::CodeBlock => MdEvent::EndCodeBlock,
        TagEnd::Table => MdEvent::EndTable,
        TagEnd::TableHead => MdEvent::EndTableHead,
        TagEnd::TableRow => MdEvent::EndTableRow,
        _ => MdEvent::EndOther,
    }
}

/// A `pulldown_cmark` event as the renderer's event.
#[verifier::external_body]
fn md_event(event: Event<'_>) -> MdEvent {
    match event {
        Event::Start(tag) => start_event(tag),
        Event::End(tag) => end_event(tag),
        Event::Text(t) => MdEvent::Text(t.to_string()),
        Event::Code(c) => MdEvent::Code(c.to_string()),
        Event::SoftBreak => MdEvent::SoftBreak,
        Event::HardBreak => MdEvent::HardBreak,
        Event::Rule => MdEvent::Rule,
        Event::TaskListMarker(checked) => MdEvent::TaskListMarker(checked),
        Event::Html(_) | Event::InlineHtml(_) => MdEvent::Html,
        Event::InlineMath(m) => MdEvent::InlineMath(m.to_string()),
        Event::DisplayMath(m) => MdEvent::DisplayMath(m.to_string()),
        _ => MdEvent::Other,
    }
}

/// `pulldown_cmark::Parser::new` on a text, its events converted for the
/// renderer (see `markdown_events`).
#[verifier::external_body]
fn parse_markdown(text: &str) -> (r: Vec<MdEvent>)
    ensures
        r@ == markdown_events(text@),
{
    Parser::new(text).map(md_event).collect()
}

impl MarkdownRenderer {
    /// Renders a Markdown text as styled lines: its parse (see
    /// `markdown_events`) rendered by `render_events`.
    pub fn render(markdown: &str, width: usize) -> (r: Vec<Vec<Span>>)
        ensures
            lines_view(r@) == rendered(markdown_events(markdown@), width as nat),
    {
        let events = parse_markdown(markdown);
        Self::render_events(events.as_slice(), width)
    }
}

} // verus!
