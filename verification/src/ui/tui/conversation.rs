//! The conversation panel's lines: the messages (from the scroll position
//! on), then the reasoning and answer being streamed, wrapped to the
//! panel's width.
use vstd::prelude::*;
use crate::text::{chars_of, decimal, decimal_chars, extend_chars, extend_str, string_of};
use crate::ui::tui::chat::{message_view, messages_view, ChatMessage, MessageView, ToolStatus, ToolStatusView};
use crate::ui::tui::markdown::{lines_view, repeat, repeat_chars, LineView};
use crate::ui::tui::styled::{dim_style, fg_style, plain_style, span, span_chars, spans_view, Color, Span, Style};

verus! {

/// Name for the lines `textwrap::wrap` makes of a text at a width, words
/// never broken.
pub uninterp spec fn wrapped_lines(text: Seq<char>, width: nat) -> Seq<Seq<char>>;

/// `textwrap::wrap` with `break_words(false)`.
#[verifier::external_body]
fn textwrap_wrap(text: &str, width: usize) -> (r: Vec<String>)
    requires
        width > 0,
    ensures
        r@.map_values(|s: String| s@) == wrapped_lines(text@, width as nat),
{
    let options = textwrap::Options::new(width).break_words(false);
    textwrap::wrap(text, options).into_iter().map(|l| l.into_owned()).collect()
}

/// `a - b`, or 0 when `b > a`.
pub open spec fn sat(a: nat, b: nat) -> nat {
    if a > b { (a - b) as nat } else { 0 }
}

/// The lines of a message text at the panel's text width: one empty line
/// for an empty text; the text as it is when fewer than 10 cells remain
/// beside the 8-cell prefix; otherwise the text wrapped at that width.
pub open spec fn wrap_spec(text: Seq<char>, width: nat) -> Seq<Seq<char>> {
    if text.len() == 0 {
        seq![Seq::empty()]
    } else if sat(width, 8) < 10 {
        seq![text]
    } else {
        wrapped_lines(text, sat(width, 8))
    }
}

/// Wraps a message text to the panel's text width (see `wrap_spec`).
pub fn wrap_text(text: &str, width: usize) -> (r: Vec<String>)
    ensures
        r@.map_values(|s: String| s@) == wrap_spec(text@, width as nat),
{
    if text.is_empty() {
        let mut v: Vec<String> = Vec::new();
        v.push(String::new());
        assert(v@.map_values(|s: String| s@) =~= seq![Seq::<char>::empty()]);
        return v;
    }
    let available = width.saturating_sub(8);
    if available < 10 {
        let mut v: Vec<String> = Vec::new();
        v.push(text.to_owned());
        assert(v@.map_values(|s: String| s@) =~= seq![text@]);
        return v;
    }
    textwrap_wrap(text, available)
}

/// The kinds of message that separate themselves from each other.
#[derive(PartialEq, Eq, Structural, Clone, Copy)]
pub enum Kind {
    User,
    Thinking,
    Assistant,
}

pub open spec fn bold(c: Color) -> Style {
    Style { fg: Some(c), bg: None, bold: true, dim: false }
}

/// The separator drawn between a user message and an answer.
pub open spec fn separator(width: nat) -> Seq<LineView> {
    seq![seq![(repeat("─"@, if width < 40 { width } else { 40 }), fg_style(Color::DarkGray))], Seq::empty()]
}

/// The lines of a user message: `You: ` before the first wrapped line, six
/// spaces before the others.
pub open spec fn user_lines(wrapped: Seq<Seq<char>>) -> Seq<LineView> {
    Seq::new(
        wrapped.len(),
        |i: int|
            if i == 0 {
                seq![("You: "@, bold(Color::Cyan)), (wrapped[i], fg_style(Color::White))]
            } else {
                seq![("      "@, plain_style()), (wrapped[i], fg_style(Color::White))]
            },
    )
}

/// Markdown lines indented by `indent`.
pub open spec fn indented(md: Seq<LineView>, indent: Seq<char>) -> Seq<LineView> {
    Seq::new(md.len(), |i: int| seq![(indent, plain_style())] + md[i])
}

/// The icon of a tool status.
pub open spec fn status_icon(s: ToolStatusView) -> Seq<char> {
    match s {
        ToolStatusView::Running => "⏳"@,
        ToolStatusView::Done => "✓"@,
        ToolStatusView::Error(_) => "✗"@,
    }
}

/// The lines of one message; `md` is the rendering of its Markdown.
pub open spec fn message_lines(m: MessageView, md: Seq<LineView>, width: nat) -> Seq<LineView> {
    match m {
        MessageView::User(c) => user_lines(wrap_spec(c, width)),
        MessageView::Thinking(c, expanded) => if expanded {
            seq![seq![("💭 [思考内容 - 按Ctrl+T折叠]"@, fg_style(Color::DarkGray))]] + indented(md, "  "@) + seq![
                Seq::empty(),
            ]
        } else {
            seq![
                seq![
                    ("💭 "@, fg_style(Color::DarkGray)),
                    ("[思考内容已折叠，按Ctrl+T展开 - "@ + decimal(c.len()) + "字]"@, dim_style(Color::DarkGray)),
                ],
                Seq::empty(),
            ]
        },
        MessageView::Assistant(c) => seq![seq![("Agent: "@, bold(Color::Green))]] + indented(md, "       "@),
        MessageView::ToolCall(name, status) => seq![
            seq![
                ("┌─ "@, fg_style(Color::DarkGray)),
                (status_icon(status), fg_style(Color::Yellow)),
                (" "@, plain_style()),
                (name, bold(Color::Yellow)),
            ],
        ],
        MessageView::System(c) => seq![seq![("System: "@, fg_style(Color::Gray)), (c, fg_style(Color::Gray))]],
    }
}

/// The kind a message sets as the last shown, if any.
pub open spec fn kind_of(m: MessageView) -> Option<Kind> {
    match m {
        MessageView::User(_) => Some(Kind::User),
        MessageView::Thinking(_, _) => Some(Kind::Thinking),
        MessageView::Assistant(_) => Some(Kind::Assistant),
        _ => None,
    }
}

/// How one message extends the panel.  Once a user message, thinking block
/// or answer has been shown, only user messages and answers are shown,
/// with a separator when the kind changes.
pub open spec fn conv_step(acc: (Seq<LineView>, Option<Kind>), m: MessageView, md: Seq<LineView>, width: nat) -> (
    Seq<LineView>,
    Option<Kind>,
) {
    match acc.1 {
        Some(last) => if !(m is User || m is Assistant) {
            acc
        } else {
            let k = if m is User { Kind::User } else { Kind::Assistant };
            let sep = if last != k { separator(width) } else { Seq::empty() };
            (acc.0 + sep + message_lines(m, md, width), Some(k))
        },
        None => (
            acc.0 + message_lines(m, md, width),
            match kind_of(m) {
                Some(k) => Some(k),
                None => None,
            },
        ),
    }
}

/// The panel's lines for the messages, in order.
pub open spec fn conv_run(ms: Seq<MessageView>, mds: Seq<Seq<LineView>>, width: nat) -> (Seq<LineView>, Option<Kind>)
    decreases ms.len(),
{
    if ms.len() == 0 {
        (Seq::empty(), None)
    } else {
        conv_step(conv_run(ms.drop_last(), mds.drop_last(), width), ms.last(), mds[ms.len() - 1], width)
    }
}

/// The streamed reasoning: a heading, its wrapped lines (the last with a
/// cursor), and a blank line; nothing when empty.
pub open spec fn reasoning_lines(r: Seq<char>, width: nat) -> Seq<LineView> {
    if r.len() == 0 {
        Seq::empty()
    } else {
        let w = wrap_spec(r, width);
        seq![seq![("💭 [思考中...]"@, fg_style(Color::DarkGray))]] + Seq::new(
            w.len(),
            |i: int|
                seq![("  "@, plain_style()), (w[i], dim_style(Color::DarkGray)), cursor(i == w.len() - 1)],
        ) + seq![Seq::empty()]
    }
}

/// The cursor span at the end of streamed text, or an empty span.
pub open spec fn cursor(last: bool) -> (Seq<char>, Style) {
    if last {
        ("▌"@, fg_style(Color::DarkGray))
    } else {
        (Seq::empty(), plain_style())
    }
}

/// The streamed answer: its wrapped lines after `Agent: ` (the last with a
/// cursor); nothing when empty.
pub open spec fn response_lines(r: Seq<char>, width: nat) -> Seq<LineView> {
    if r.len() == 0 {
        Seq::empty()
    } else {
        let w = wrap_spec(r, width);
        Seq::new(
            w.len(),
            |i: int|
                if i == 0 {
                    seq![("Agent: "@, bold(Color::Green)), (w[i], fg_style(Color::White)), cursor(i == w.len() - 1)]
                } else {
                    seq![("       "@, plain_style()), (w[i], fg_style(Color::White)), cursor(i == w.len() - 1)]
                },
        )
    }
}

/// All lines of the panel, `area_width` cells wide, scrolled by `scroll`
/// messages; `mds[i]` is the Markdown rendering of message `i`.
pub open spec fn panel_lines(
    ms: Seq<MessageView>,
    mds: Seq<Seq<LineView>>,
    scroll: nat,
    area_width: nat,
    reasoning: Seq<char>,
    response: Seq<char>,
) -> Seq<LineView> {
    let w = sat(area_width, 4);
    let vis = if scroll < ms.len() { ms.skip(scroll as int) } else { Seq::empty() };
    let vmd = if scroll < ms.len() { mds.skip(scroll as int) } else { Seq::empty() };
    conv_run(vis, vmd, w).0 + reasoning_lines(reasoning, w) + response_lines(response, w)
}

fn status_icon_str(s: &ToolStatus) -> (r: &'static str)
    ensures
        r@ == status_icon(crate::ui::tui::chat::tool_status_view(*s)),
{
    match s {
        ToolStatus::Running => "⏳",
        ToolStatus::Done => "✓",
        ToolStatus::Error(_) => "✗",
    }
}

/// Appends `extra` to `out`.
fn append_lines(out: &mut Vec<Vec<Span>>, extra: Vec<Vec<Span>>)
    ensures
        lines_view(final(out)@) == lines_view(old(out)@) + lines_view(extra@),
{
    let mut extra = extra;
    let ghost e0 = extra@;
    out.append(&mut extra);
    assert(lines_view(out@) =~= lines_view(old(out)@) + lines_view(e0));
}

/// Markdown lines with `indent` before each.
fn indent_lines(md: &Vec<Vec<Span>>, indent: &str) -> (r: Vec<Vec<Span>>)
    ensures
        lines_view(r@) == indented(lines_view(md@), indent@),
{
    let mut r: Vec<Vec<Span>> = Vec::new();
    let mut i: usize = 0;
    while i < md.len()
        invariant
            i <= md@.len(),
            lines_view(r@) == indented(lines_view(md@), indent@).take(i as int),
        decreases md.len() - i,
    {
        let mut l: Vec<Span> = Vec::new();
        l.push(span(indent, Style::plain()));
        let mut k: usize = 0;
        while k < md[i].len()
            invariant
                i < md@.len(),
                k <= md@[i as int]@.len(),
                spans_view(l@) == seq![(indent@, plain_style())] + spans_view(md@[i as int]@).take(k as int),
            decreases md@[i as int]@.len() - k,
        {
            let s = Span { content: md[i][k].content.clone(), style: md[i][k].style };
            let ghost l0 = spans_view(l@);
            l.push(s);
            assert(spans_view(l@) =~= l0.push((md@[i as int]@[k as int].content@, md@[i as int]@[k as int].style)));
            assert(spans_view(md@[i as int]@).take(k + 1) =~= spans_view(md@[i as int]@).take(k as int).push(
                (md@[i as int]@[k as int].content@, md@[i as int]@[k as int].style),
            ));
            k += 1;
        }
        assert(spans_view(md@[i as int]@).take(md@[i as int]@.len() as int) =~= spans_view(md@[i as int]@));
        let ghost r0 = lines_view(r@);
        r.push(l);
        assert(lines_view(r@) =~= r0.push(spans_view(l@)));
        assert(indented(lines_view(md@), indent@).take(i + 1) =~= indented(lines_view(md@), indent@).take(i as int).push(
            spans_view(l@),
        ));
        i += 1;
    }
    assert(indented(lines_view(md@), indent@).take(md@.len() as int) =~= indented(lines_view(md@), indent@));
    r
}

/// Wrapped lines, each with its prefix (the first one's may differ), its
/// text style, and optionally a cursor after the last.
pub open spec fn prefixed(
    w: Seq<Seq<char>>,
    first_prefix: Seq<char>,
    first_style: Style,
    prefix: Seq<char>,
    prefix_style: Style,
    text_style: Style,
    with_cursor: bool,
) -> Seq<LineView> {
    Seq::new(
        w.len(),
        |i: int|
            (if i == 0 {
                seq![(first_prefix, first_style)]
            } else {
                seq![(prefix, prefix_style)]
            }) + seq![(w[i], text_style)] + (if with_cursor {
                seq![cursor(i == w.len() - 1)]
            } else {
                Seq::empty()
            }),
    )
}

/// A line without spans.
fn empty_line() -> (r: Vec<Span>)
    ensures
        spans_view(r@) == Seq::<(Seq<char>, Style)>::empty(),
{
    let r: Vec<Span> = Vec::new();
    assert(spans_view(r@) =~= Seq::<(Seq<char>, Style)>::empty());
    r
}

/// The lines `prefixed` describes.
fn prefixed_lines(
    wrapped: &Vec<String>,
    first_prefix: &str,
    first_style: Style,
    prefix: &str,
    prefix_style: Style,
    text_style: Style,
    with_cursor: bool,
) -> (r: Vec<Vec<Span>>)
    ensures
        lines_view(r@) == prefixed(
            wrapped@.map_values(|s: String| s@),
            first_prefix@,
            first_style,
            prefix@,
            prefix_style,
            text_style,
            with_cursor,
        ),
{
    let ghost wv = wrapped@.map_values(|s: String| s@);
    let ghost target = prefixed(wv, first_prefix@, first_style, prefix@, prefix_style, text_style, with_cursor);
    let mut r: Vec<Vec<Span>> = Vec::new();
    let mut i: usize = 0;
    assert(lines_view(r@) =~= target.take(0));
    while i < wrapped.len()
        invariant
            i <= wrapped@.len(),
            wv == wrapped@.map_values(|s: String| s@),
            target == prefixed(wv, first_prefix@, first_style, prefix@, prefix_style, text_style, with_cursor),
            lines_view(r@) == target.take(i as int),
        decreases wrapped.len() - i,
    {
        let mut l: Vec<Span> = Vec::new();
        if i == 0 {
            l.push(span(first_prefix, first_style));
        } else {
            l.push(span(prefix, prefix_style));
        }
        l.push(span(wrapped[i].as_str(), text_style));
        if with_cursor {
            if i == wrapped.len() - 1 {
                l.push(span("▌", Style::fg(Color::DarkGray)));
            } else {
                l.push(span("", Style::plain()));
            }
        }
        proof {
            reveal_strlit("");
            assert(""@ =~= Seq::<char>::empty());
            assert(wv.len() == wrapped@.len());
            assert(wv[i as int] == wrapped@[i as int]@);
            let ghost expect = (if i == 0 {
                seq![(first_prefix@, first_style)]
            } else {
                seq![(prefix@, prefix_style)]
            }) + seq![(wv[i as int], text_style)] + (if with_cursor {
                seq![cursor(i == wv.len() - 1)]
            } else {
                Seq::<(Seq<char>, Style)>::empty()
            });
            assert(target[i as int] == expect);
            assert(spans_view(l@) =~= expect);
        }
        let ghost r0 = lines_view(r@);
        r.push(l);
        assert(lines_view(r@) =~= r0.push(target[i as int]));
        assert(target.take(i + 1) =~= target.take(i as int).push(target[i as int]));
        i += 1;
    }
    assert(target.take(wrapped@.len() as int) =~= target);
    r
}

/// The lines of one message.
fn message_lines_exec(m: &ChatMessage, md: &Vec<Vec<Span>>, width: usize) -> (r: Vec<Vec<Span>>)
    ensures
        lines_view(r@) == message_lines(message_view(*m), lines_view(md@), width as nat),
{
    match m {
        ChatMessage::User { content } => {
            let w = wrap_text(content.as_str(), width);
            let r = prefixed_lines(&w, "You: ", Style::bold_fg(Color::Cyan), "      ", Style::plain(), Style::fg(Color::White), false);
            let ghost wv = w@.map_values(|s: String| s@);
            assert(lines_view(r@) =~~= user_lines(wv));
            r
        },
        ChatMessage::Thinking { content, expanded } => {
            let mut r: Vec<Vec<Span>> = Vec::new();
            if *expanded {
                let mut h: Vec<Span> = Vec::new();
                h.push(span("💭 [思考内容 - 按Ctrl+T折叠]", Style::fg(Color::DarkGray)));
                r.push(h);
                let body = indent_lines(md, "  ");
                append_lines(&mut r, body);
            } else {
                let mut h: Vec<Span> = Vec::new();
                h.push(span("💭 ", Style::fg(Color::DarkGray)));
                let mut t = chars_of("[思考内容已折叠，按Ctrl+T展开 - ");
                let n = chars_of(content.as_str()).len();
                extend_chars(&mut t, decimal_chars(n as u64).as_slice());
                extend_str(&mut t, "字]");
                h.push(span_chars(t, Style::dim_fg(Color::DarkGray)));
                r.push(h);
            }
            let ghost r0 = lines_view(r@);
            r.push(empty_line());
            assert(lines_view(r@) =~= r0.push(Seq::empty()));
            assert(lines_view(r@) =~~= message_lines(message_view(*m), lines_view(md@), width as nat));
            r
        },
        ChatMessage::Assistant { content } => {
            let mut r: Vec<Vec<Span>> = Vec::new();
            let mut h: Vec<Span> = Vec::new();
            h.push(span("Agent: ", Style::bold_fg(Color::Green)));
            r.push(h);
            let body = indent_lines(md, "       ");
            append_lines(&mut r, body);
            assert(lines_view(r@) =~~= message_lines(message_view(*m), lines_view(md@), width as nat));
            r
        },
        ChatMessage::ToolCall { name, status } => {
            let mut h: Vec<Span> = Vec::new();
            h.push(span("┌─ ", Style::fg(Color::DarkGray)));
            h.push(span(status_icon_str(status), Style::fg(Color::Yellow)));
            h.push(span(" ", Style::plain()));
            h.push(span(name.as_str(), Style::bold_fg(Color::Yellow)));
            let mut r: Vec<Vec<Span>> = Vec::new();
            r.push(h);
            assert(lines_view(r@) =~~= message_lines(message_view(*m), lines_view(md@), width as nat));
            r
        },
        ChatMessage::System { content } => {
            let mut h: Vec<Span> = Vec::new();
            h.push(span("System: ", Style::fg(Color::Gray)));
            h.push(span(content.as_str(), Style::fg(Color::Gray)));
            let mut r: Vec<Vec<Span>> = Vec::new();
            r.push(h);
            assert(lines_view(r@) =~~= message_lines(message_view(*m), lines_view(md@), width as nat));
            r
        },
    }
}

/// The views of the Markdown renderings.
pub open spec fn renderings_view(v: Seq<Vec<Vec<Span>>>) -> Seq<Seq<LineView>> {
    v.map_values(|x: Vec<Vec<Span>>| lines_view(x@))
}

/// The conversation panel's lines, for a panel `area_width` cells wide
/// scrolled by `scroll` messages.  `markdown[i]` is the Markdown rendering
/// of message `i` (used for answers and unfolded thinking blocks).
pub fn conversation_lines(
    messages: &Vec<ChatMessage>,
    markdown: &Vec<Vec<Vec<Span>>>,
    scroll: usize,
    area_width: u16,
    reasoning: &str,
    response: &str,
) -> (r: Vec<Vec<Span>>)
    requires
        markdown@.len() == messages@.len(),
    ensures
        lines_view(r@) == panel_lines(
            messages_view(messages@),
            renderings_view(markdown@),
            scroll as nat,
            area_width as nat,
            reasoning@,
            response@,
        ),
{
    let width: usize = area_width.saturating_sub(4) as usize;
    let ghost ms = messages_view(messages@);
    let ghost mds = renderings_view(markdown@);
    let ghost vis = if scroll < ms.len() { ms.skip(scroll as int) } else { Seq::<MessageView>::empty() };
    let ghost vmd = if scroll < ms.len() { mds.skip(scroll as int) } else { Seq::<Seq<LineView>>::empty() };
    let mut out: Vec<Vec<Span>> = Vec::new();
    let mut last: Option<Kind> = None;
    let mut i: usize = scroll;
    proof {
        assert(vis.take(0) =~= Seq::<MessageView>::empty());
        assert(lines_view(out@) =~= Seq::<LineView>::empty());
    }
    while i < messages.len()
        invariant
            markdown@.len() == messages@.len(),
            ms == messages_view(messages@),
            mds == renderings_view(markdown@),
            vis == (if scroll < ms.len() { ms.skip(scroll as int) } else { Seq::<MessageView>::empty() }),
            vmd == (if scroll < ms.len() { mds.skip(scroll as int) } else { Seq::<Seq<LineView>>::empty() }),
            i >= messages@.len() || scroll <= i,
            scroll < messages@.len() ==> scroll <= i <= messages@.len(),
            width == sat(area_width as nat, 4),
            i < messages@.len() ==> (lines_view(out@), last) == conv_run(
                vis.take(i - scroll),
                vmd.take(i - scroll),
                width as nat,
            ),
            i >= messages@.len() && scroll < messages@.len() ==> (lines_view(out@), last) == conv_run(vis, vmd, width as nat),
            scroll >= messages@.len() ==> lines_view(out@).len() == 0 && last is None,
        decreases messages.len() - i,
    {
        let ghost k = (i - scroll) as int;
        proof {
            assert(vis.take(k + 1).drop_last() =~= vis.take(k));
            assert(vmd.take(k + 1).drop_last() =~= vmd.take(k));
            assert(vis.take(k + 1).last() == ms[i as int]);
            assert(vmd.take(k + 1)[k] == mds[i as int]);
            assert(ms[i as int] == message_view(messages@[i as int]));
            assert(mds[i as int] == lines_view(markdown@[i as int]@));
        }
        let m = &messages[i];
        let show = match last {
            Some(_) => match m {
                ChatMessage::User { .. } | ChatMessage::Assistant { .. } => true,
                _ => false,
            },
            None => true,
        };
        if show {
            match last {
                Some(l) => {
                    let k2 = match m {
                        ChatMessage::User { .. } => Kind::User,
                        _ => Kind::Assistant,
                    };
                    if l != k2 {
                        let n = if width < 40 { width } else { 40 };
                        let mut sep: Vec<Vec<Span>> = Vec::new();
                        let mut s: Vec<Span> = Vec::new();
                        s.push(span_chars(repeat_chars("─", n), Style::fg(Color::DarkGray)));
                        sep.push(s);
                        sep.push(empty_line());
                        assert(lines_view(sep@) =~~= separator(width as nat));
                        append_lines(&mut out, sep);
                    }
                },
                None => {},
            }
            let ml = message_lines_exec(m, &markdown[i], width);
            append_lines(&mut out, ml);
            last = match m {
                ChatMessage::User { .. } => Some(Kind::User),
                ChatMessage::Thinking { .. } => Some(Kind::Thinking),
                ChatMessage::Assistant { .. } => Some(Kind::Assistant),
                _ => last,
            };
        }
        i += 1;
        proof {
            if i < messages@.len() {
            } else {
                assert(vis.take(k + 1) =~= vis);
                assert(vmd.take(k + 1) =~= vmd);
            }
        }
    }
    proof {
        if scroll < ms.len() && scroll == messages@.len() {
        }
    }
    if !reasoning.is_empty() {
        let mut h: Vec<Span> = Vec::new();
        h.push(span("💭 [思考中...]", Style::fg(Color::DarkGray)));
        let mut block: Vec<Vec<Span>> = Vec::new();
        block.push(h);
        let w = wrap_text(reasoning, width);
        let body = prefixed_lines(&w, "  ", Style::plain(), "  ", Style::plain(), Style::dim_fg(Color::DarkGray), true);
        let ghost wv = w@.map_values(|s: String| s@);
        let ghost mid = Seq::new(
            wv.len(),
            |i: int| seq![("  "@, plain_style()), (wv[i], dim_style(Color::DarkGray)), cursor(i == wv.len() - 1)],
        );
        assert(lines_view(body@) =~~= mid) by {
            assert forall|i: int| 0 <= i < wv.len() implies lines_view(body@)[i] =~= mid[i] by {
                assert(lines_view(body@)[i] == prefixed(wv, "  "@, plain_style(), "  "@, plain_style(), dim_style(Color::DarkGray), true)[i]);
            }
        }
        let ghost bv = lines_view(body@);
        let ghost hv = lines_view(block@);
        assert(hv =~~= seq![seq![("💭 [思考中...]"@, fg_style(Color::DarkGray))]]);
        append_lines(&mut block, body);
        block.push(empty_line());
        assert(lines_view(block@) =~= hv + bv + seq![Seq::<(Seq<char>, Style)>::empty()]);
        assert(wv == wrap_spec(reasoning@, width as nat));
        assert(reasoning@.len() > 0);
        assert(lines_view(block@) =~~= reasoning_lines(reasoning@, width as nat));
        append_lines(&mut out, block);
    }
    if !response.is_empty() {
        let w = wrap_text(response, width);
        let body = prefixed_lines(&w, "Agent: ", Style::bold_fg(Color::Green), "       ", Style::plain(), Style::fg(Color::White), true);
        assert(lines_view(body@) =~~= response_lines(response@, width as nat));
        append_lines(&mut out, body);
    }
    assert(lines_view(out@) =~= panel_lines(ms, mds, scroll as nat, area_width as nat, reasoning@, response@));
    out
}

/// The text of a styled line: its spans' texts in order.
pub open spec fn plain_text(l: LineView) -> Seq<char>
    decreases l.len(),
{
    if l.len() == 0 {
        Seq::empty()
    } else {
        plain_text(l.drop_last()) + l.last().0
    }
}

/// The plain lines copied for one message.
pub open spec fn copy_message_lines(m: MessageView, md: Seq<LineView>, width: nat) -> Seq<Seq<char>> {
    match m {
        MessageView::User(c) => {
            let w = wrap_spec(c, width);
            Seq::new(w.len(), |i: int| (if i == 0 { "You: "@ } else { "      "@ }) + w[i])
        },
        MessageView::Assistant(c) => seq!["Agent: "@] + Seq::new(md.len(), |i: int| "       "@ + plain_text(md[i])),
        MessageView::Thinking(c, expanded) => (if expanded {
            seq!["💭 [思考内容]"@] + Seq::new(md.len(), |i: int| "  "@ + plain_text(md[i]))
        } else {
            seq!["💭 [思考内容已折叠 - "@ + decimal(c.len()) + "字]"@]
        }) + seq![Seq::empty()],
        MessageView::ToolCall(name, status) => seq!["┌─ "@ + status_icon(status) + " "@ + name],
        MessageView::System(c) => seq!["System: "@ + c],
    }
}

/// The plain lines copied for the messages, in order.
pub open spec fn copy_run(ms: Seq<MessageView>, mds: Seq<Seq<LineView>>, width: nat) -> Seq<Seq<char>>
    decreases ms.len(),
{
    if ms.len() == 0 {
        Seq::empty()
    } else {
        copy_run(ms.drop_last(), mds.drop_last(), width) + copy_message_lines(ms.last(), mds[ms.len() - 1], width)
    }
}

/// Each wrapped line after its prefix (the first one's may differ).
pub open spec fn prefix_each(w: Seq<Seq<char>>, first: Seq<char>, rest: Seq<char>) -> Seq<Seq<char>> {
    Seq::new(w.len(), |i: int| (if i == 0 { first } else { rest }) + w[i])
}

/// The plain text of the conversation panel that a selection copies from:
/// every message from the scroll position on (tool calls and system
/// messages included), then the streamed reasoning and answer.
pub open spec fn copy_lines_of(
    ms: Seq<MessageView>,
    mds: Seq<Seq<LineView>>,
    scroll: nat,
    area_width: nat,
    reasoning: Seq<char>,
    response: Seq<char>,
) -> Seq<Seq<char>> {
    let w = sat(area_width, 4);
    let vis = if scroll < ms.len() { ms.skip(scroll as int) } else { Seq::empty() };
    let vmd = if scroll < ms.len() { mds.skip(scroll as int) } else { Seq::empty() };
    copy_run(vis, vmd, w) + (if reasoning.len() > 0 {
        seq!["💭 [思考中...]"@] + prefix_each(wrap_spec(reasoning, w), "  "@, "  "@) + seq![Seq::empty()]
    } else {
        Seq::empty()
    }) + (if response.len() > 0 {
        prefix_each(wrap_spec(response, w), "Agent: "@, "       "@)
    } else {
        Seq::empty()
    })
}

/// The text of a styled line.
fn plain_text_exec(l: &Vec<Span>) -> (r: Vec<char>)
    ensures
        r@ == plain_text(spans_view(l@)),
{
    let mut r: Vec<char> = Vec::new();
    let mut k: usize = 0;
    while k < l.len()
        invariant
            k <= l@.len(),
            r@ == plain_text(spans_view(l@).take(k as int)),
        decreases l.len() - k,
    {
        assert(spans_view(l@).take(k + 1).drop_last() =~= spans_view(l@).take(k as int));
        extend_str(&mut r, l[k].content.as_str());
        k += 1;
    }
    assert(spans_view(l@).take(l@.len() as int) =~= spans_view(l@));
    r
}

/// Appends `prefix` followed by `text` as a line.
fn push_text(out: &mut Vec<Vec<char>>, prefix: &str, text: &[char])
    ensures
        final(out)@.map_values(|v: Vec<char>| v@) == old(out)@.map_values(|v: Vec<char>| v@).push(prefix@ + text@),
{
    let mut l = chars_of(prefix);
    extend_chars(&mut l, text);
    out.push(l);
    assert(out@.map_values(|v: Vec<char>| v@) =~= old(out)@.map_values(|v: Vec<char>| v@).push(prefix@ + text@));
}

/// Appends each wrapped line after its prefix.
fn push_prefixed(out: &mut Vec<Vec<char>>, w: &Vec<String>, first: &str, rest: &str)
    ensures
        final(out)@.map_values(|v: Vec<char>| v@) == old(out)@.map_values(|v: Vec<char>| v@) + prefix_each(
            w@.map_values(|s: String| s@),
            first@,
            rest@,
        ),
{
    let ghost base = out@.map_values(|v: Vec<char>| v@);
    let ghost target = prefix_each(w@.map_values(|s: String| s@), first@, rest@);
    let mut i: usize = 0;
    assert(target.take(0) =~= Seq::<Seq<char>>::empty());
    assert(base + target.take(0) =~= base);
    while i < w.len()
        invariant
            i <= w@.len(),
            target == prefix_each(w@.map_values(|s: String| s@), first@, rest@),
            out@.map_values(|v: Vec<char>| v@) == base + target.take(i as int),
        decreases w.len() - i,
    {
        let c = chars_of(w[i].as_str());
        if i == 0 {
            push_text(out, first, c.as_slice());
        } else {
            push_text(out, rest, c.as_slice());
        }
        assert(target[i as int] == (if i == 0 { first@ } else { rest@ }) + w@[i as int]@);
        assert(base + target.take(i + 1) =~= (base + target.take(i as int)).push(target[i as int]));
        i += 1;
    }
    assert(target.take(w@.len() as int) =~= target);
}

/// Appends each Markdown line's text after `indent`.
fn push_markdown(out: &mut Vec<Vec<char>>, md: &Vec<Vec<Span>>, indent: &str)
    ensures
        final(out)@.map_values(|v: Vec<char>| v@) == old(out)@.map_values(|v: Vec<char>| v@) + Seq::new(
            md@.len(),
            |i: int| indent@ + plain_text(lines_view(md@)[i]),
        ),
{
    let ghost base = out@.map_values(|v: Vec<char>| v@);
    let ghost target = Seq::new(md@.len(), |i: int| indent@ + plain_text(lines_view(md@)[i]));
    let mut i: usize = 0;
    assert(base + target.take(0) =~= base);
    while i < md.len()
        invariant
            i <= md@.len(),
            target == Seq::new(md@.len(), |i: int| indent@ + plain_text(lines_view(md@)[i])),
            out@.map_values(|v: Vec<char>| v@) == base + target.take(i as int),
        decreases md.len() - i,
    {
        let t = plain_text_exec(&md[i]);
        push_text(out, indent, t.as_slice());
        assert(target[i as int] == indent@ + plain_text(spans_view(md@[i as int]@)));
        assert(base + target.take(i + 1) =~= (base + target.take(i as int)).push(target[i as int]));
        i += 1;
    }
    assert(target.take(md@.len() as int) =~= target);
}

/// The plain lines copied for one message.
fn copy_message_exec(out: &mut Vec<Vec<char>>, m: &ChatMessage, md: &Vec<Vec<Span>>, width: usize)
    ensures
        final(out)@.map_values(|v: Vec<char>| v@) == old(out)@.map_values(|v: Vec<char>| v@) + copy_message_lines(
            message_view(*m),
            lines_view(md@),
            width as nat,
        ),
{
    let ghost base = out@.map_values(|v: Vec<char>| v@);
    let empty: [char; 0] = [];
    assert(empty@ =~= Seq::<char>::empty());
    proof {
        reveal_strlit("");
        assert(""@ =~= Seq::<char>::empty());
    }
    match m {
        ChatMessage::User { content } => {
            let w = wrap_text(content.as_str(), width);
            push_prefixed(out, &w, "You: ", "      ");
        },
        ChatMessage::Assistant { content } => {
            push_text(out, "Agent: ", &empty);
            push_markdown(out, md, "       ");
            assert(out@.map_values(|v: Vec<char>| v@) =~= base + copy_message_lines(
                message_view(*m),
                lines_view(md@),
                width as nat,
            ));
        },
        ChatMessage::Thinking { content, expanded } => {
            if *expanded {
                push_text(out, "💭 [思考内容]", &empty);
                push_markdown(out, md, "  ");
            } else {
                let mut t = chars_of("💭 [思考内容已折叠 - ");
                let n = chars_of(content.as_str()).len();
                extend_chars(&mut t, decimal_chars(n as u64).as_slice());
                extend_str(&mut t, "字]");
                push_text(out, "", t.as_slice());
            }
            push_text(out, "", &empty);
            proof {
                reveal_strlit("");
            }
            assert(out@.map_values(|v: Vec<char>| v@) =~= base + copy_message_lines(
                message_view(*m),
                lines_view(md@),
                width as nat,
            ));
        },
        ChatMessage::ToolCall { name, status } => {
            let mut t = chars_of("┌─ ");
            extend_str(&mut t, status_icon_str(status));
            extend_str(&mut t, " ");
            extend_str(&mut t, name.as_str());
            push_text(out, "", t.as_slice());
            proof {
                reveal_strlit("");
            }
            assert(out@.map_values(|v: Vec<char>| v@) =~= base + copy_message_lines(
                message_view(*m),
                lines_view(md@),
                width as nat,
            ));
        },
        ChatMessage::System { content } => {
            let c = chars_of(content.as_str());
            push_text(out, "System: ", c.as_slice());
            assert(out@.map_values(|v: Vec<char>| v@) =~= base + copy_message_lines(
                message_view(*m),
                lines_view(md@),
                width as nat,
            ));
        },
    }
}

/// The plain text a selection of the conversation copies from, one string
/// per line (see `copy_lines_of`).
pub fn copy_lines(
    messages: &Vec<ChatMessage>,
    markdown: &Vec<Vec<Vec<Span>>>,
    scroll: usize,
    area_width: u16,
    reasoning: &str,
    response: &str,
) -> (r: Vec<Vec<String>>)
    requires
        markdown@.len() == messages@.len(),
    ensures
        r@.len() == copy_lines_of(
            messages_view(messages@),
            renderings_view(markdown@),
            scroll as nat,
            area_width as nat,
            reasoning@,
            response@,
        ).len(),
        forall|i: int|
            0 <= i < r@.len() ==> (#[trigger] r@[i])@.len() == 1 && r@[i]@[0]@ == copy_lines_of(
                messages_view(messages@),
                renderings_view(markdown@),
                scroll as nat,
                area_width as nat,
                reasoning@,
                response@,
            )[i],
{
    let width: usize = area_width.saturating_sub(4) as usize;
    let ghost ms = messages_view(messages@);
    let ghost mds = renderings_view(markdown@);
    let ghost vis = if scroll < ms.len() { ms.skip(scroll as int) } else { Seq::<MessageView>::empty() };
    let ghost vmd = if scroll < ms.len() { mds.skip(scroll as int) } else { Seq::<Seq<LineView>>::empty() };
    let mut out: Vec<Vec<char>> = Vec::new();
    let mut i: usize = scroll;
    assert(out@.map_values(|v: Vec<char>| v@) =~= Seq::<Seq<char>>::empty());
    while i < messages.len()
        invariant
            markdown@.len() == messages@.len(),
            ms == messages_view(messages@),
            mds == renderings_view(markdown@),
            vis == (if scroll < ms.len() { ms.skip(scroll as int) } else { Seq::<MessageView>::empty() }),
            vmd == (if scroll < ms.len() { mds.skip(scroll as int) } else { Seq::<Seq<LineView>>::empty() }),
            scroll < messages@.len() ==> scroll <= i <= messages@.len(),
            scroll <= i,
            width == sat(area_width as nat, 4),
            i < messages@.len() ==> out@.map_values(|v: Vec<char>| v@) == copy_run(
                vis.take(i - scroll),
                vmd.take(i - scroll),
                width as nat,
            ),
            i >= messages@.len() && scroll < messages@.len() ==> out@.map_values(|v: Vec<char>| v@) == copy_run(
                vis,
                vmd,
                width as nat,
            ),
            scroll >= messages@.len() ==> out@.len() == 0,
        decreases messages.len() - i,
    {
        let ghost k = (i - scroll) as int;
        proof {
            assert(vis.take(k + 1).drop_last() =~= vis.take(k));
            assert(vmd.take(k + 1).drop_last() =~= vmd.take(k));
            assert(vis.take(k + 1).last() == ms[i as int]);
            assert(vmd.take(k + 1)[k] == mds[i as int]);
            assert(ms[i as int] == message_view(messages@[i as int]));
            assert(mds[i as int] == lines_view(markdown@[i as int]@));
        }
        copy_message_exec(&mut out, &messages[i], &markdown[i], width);
        i += 1;
        proof {
            if i >= messages@.len() {
                assert(vis.take(k + 1) =~= vis);
                assert(vmd.take(k + 1) =~= vmd);
            }
        }
    }
    let ghost after_messages = out@.map_values(|v: Vec<char>| v@);
    assert(after_messages == copy_run(vis, vmd, width as nat)) by {
        if scroll >= ms.len() {
            assert(after_messages =~= Seq::<Seq<char>>::empty());
        }
    }
    if !reasoning.is_empty() {
        let empty: [char; 0] = [];
        assert(empty@ =~= Seq::<char>::empty());
        proof {
            reveal_strlit("");
            assert(""@ =~= Seq::<char>::empty());
        }
        push_text(&mut out, "💭 [思考中...]", &empty);
        let w = wrap_text(reasoning, width);
        push_prefixed(&mut out, &w, "  ", "  ");
        push_text(&mut out, "", &empty);
        proof {
            reveal_strlit("");
        }
    }
    let ghost after_reasoning = out@.map_values(|v: Vec<char>| v@);
    assert(after_reasoning =~= after_messages + (if reasoning@.len() > 0 {
        seq!["💭 [思考中...]"@] + prefix_each(wrap_spec(reasoning@, width as nat), "  "@, "  "@) + seq![Seq::<char>::empty()]
    } else {
        Seq::<Seq<char>>::empty()
    }));
    if !response.is_empty() {
        let w = wrap_text(response, width);
        push_prefixed(&mut out, &w, "Agent: ", "       ");
    }
    let ghost all = out@.map_values(|v: Vec<char>| v@);
    assert(all =~= copy_lines_of(ms, mds, scroll as nat, area_width as nat, reasoning@, response@));
    let mut r: Vec<Vec<String>> = Vec::new();
    let mut j: usize = 0;
    while j < out.len()
        invariant
            j <= out@.len(),
            all == out@.map_values(|v: Vec<char>| v@),
            r@.len() == j,
            forall|t: int| 0 <= t < j ==> (#[trigger] r@[t])@.len() == 1 && r@[t]@[0]@ == all[t],
        decreases out.len() - j,
    {
        let mut l: Vec<String> = Vec::new();
        l.push(string_of(out[j].as_slice()));
        r.push(l);
        j += 1;
    }
    r
}

} // verus!
