//! Debug panel: a bounded, scrollable, level-filtered view of log entries.
use vstd::prelude::*;
use std::collections::VecDeque;
use crate::logging::{enabled, level_enabled, Level, LevelFilter, LogEntry};
use crate::text::{decimal, decimal_chars, extend_chars, extend_str, string_of};
use crate::ui::tui::styled::{fg_style, plain_style, span, span_chars, spans_view, Color, Span, Style};

verus! {

/// Number of log lines the panel assumes visible when scrolling by keys.
pub const VISIBLE_LOGS: usize = 10;

/// Lines moved by one page up or down.
pub const PAGE_SIZE: usize = 10;

/// `a - b`, or 0 when `b > a` (`usize::saturating_sub`).
pub open spec fn sat_sub(a: int, b: int) -> int {
    if a > b { a - b } else { 0 }
}

/// Number of entries the panel can hold: `max_entries`, but at least one
/// (the entry just added is always kept).
pub open spec fn capacity(max_entries: nat) -> nat {
    if max_entries == 0 { 1 } else { max_entries }
}

/// The last `k` elements of `s` (all of `s` when it is shorter).
pub open spec fn keep_last(s: Seq<LogEntry>, k: nat) -> Seq<LogEntry> {
    if s.len() <= k { s } else { s.subrange(s.len() - k, s.len() as int) }
}

/// The entries of `s` whose level passes the filter, in order.
pub open spec fn passing(s: Seq<LogEntry>, f: LevelFilter) -> Seq<LogEntry>
    decreases s.len(),
{
    if s.len() == 0 {
        Seq::empty()
    } else {
        let p = passing(s.drop_last(), f);
        if enabled(s.last().level, f) { p.push(s.last()) } else { p }
    }
}

/// The filter that follows `f` when cycling: Off, Error, Warn, Info, Debug,
/// Trace, then Off again.
pub open spec fn next_filter(f: LevelFilter) -> LevelFilter {
    match f {
        LevelFilter::Off => LevelFilter::Error,
        LevelFilter::Error => LevelFilter::Warn,
        LevelFilter::Warn => LevelFilter::Info,
        LevelFilter::Info => LevelFilter::Debug,
        LevelFilter::Debug => LevelFilter::Trace,
        LevelFilter::Trace => LevelFilter::Off,
    }
}

/// Upper-case name of a filter.
pub open spec fn filter_name(f: LevelFilter) -> Seq<char> {
    match f {
        LevelFilter::Off => "OFF"@,
        LevelFilter::Error => "ERROR"@,
        LevelFilter::Warn => "WARN"@,
        LevelFilter::Info => "INFO"@,
        LevelFilter::Debug => "DEBUG"@,
        LevelFilter::Trace => "TRACE"@,
    }
}

/// The level's name padded with spaces to five columns.
pub open spec fn level_label(l: Level) -> Seq<char> {
    match l {
        Level::Error => "ERROR"@,
        Level::Warn => "WARN "@,
        Level::Info => "INFO "@,
        Level::Debug => "DEBUG"@,
        Level::Trace => "TRACE"@,
    }
}

/// Colour of a level's label.
pub open spec fn level_color_of(l: Level) -> Color {
    match l {
        Level::Error => Color::Red,
        Level::Warn => Color::Yellow,
        Level::Info => Color::Green,
        Level::Debug => Color::Cyan,
        Level::Trace => Color::Rgb(128, 128, 128),
    }
}

/// The spans of one log line:
/// `[timestamp] LEVEL [module] message`, or `[timestamp] LEVEL message`
/// when the entry has no module.
pub open spec fn log_line(e: LogEntry) -> Seq<(Seq<char>, Style)> {
    let head = seq![
        ("["@, fg_style(Color::DarkGray)),
        (e.timestamp@, fg_style(Color::DarkGray)),
        ("] "@, fg_style(Color::DarkGray)),
        (level_label(e.level), fg_style(level_color_of(e.level))),
    ];
    let module = match e.module {
        Some(m) => seq![(" ["@ + m@ + "] "@, fg_style(Color::Rgb(100, 149, 237)))],
        None => seq![(" "@, plain_style())],
    };
    head + module + seq![(e.message@, plain_style())]
}

/// The part of `p` shown from `off` up to (not including) `end`.
pub open spec fn window(p: Seq<LogEntry>, off: int, end: int) -> Seq<LogEntry> {
    if p.len() <= off {
        Seq::empty()
    } else if p.len() <= end {
        p.subrange(off, p.len() as int)
    } else {
        p.subrange(off, end)
    }
}

/// Title of the panel for a filter and a number of shown entries.
pub open spec fn panel_title(f: LevelFilter, count: nat) -> Seq<char> {
    "Debug Panel [Level: "@ + filter_name(f) + "] ["@ + decimal(count) + " logs] [F12:Close l:Level c:Clear]"@
}

/// What the panel draws: its title and one line of spans per visible entry.
pub struct DebugPanelView {
    pub title: String,
    pub lines: Vec<Vec<Span>>,
}

/// Debug panel for displaying log entries.
pub struct DebugPanel {
    logs: VecDeque<LogEntry>,
    max_entries: usize,
    level_filter: LevelFilter,
    scroll_offset: usize,
    auto_scroll: bool,
}

impl DebugPanel {
    /// The stored entries, oldest first.
    pub closed spec fn entries(&self) -> Seq<LogEntry> {
        self.logs@
    }

    /// The configured maximum number of entries.
    pub closed spec fn max(&self) -> nat {
        self.max_entries as nat
    }

    /// The current level filter.
    pub closed spec fn filter(&self) -> LevelFilter {
        self.level_filter
    }

    /// The current scroll offset.
    pub closed spec fn offset(&self) -> nat {
        self.scroll_offset as nat
    }

    /// Whether new entries scroll the view to the bottom.
    pub closed spec fn follows(&self) -> bool {
        self.auto_scroll
    }

    /// The panel holds at most `capacity(max)` entries and the offset never
    /// passes the bottom position.
    pub open spec fn wf(&self) -> bool {
        &&& self.entries().len() <= capacity(self.max())
        &&& self.offset() <= sat_sub(self.entries().len() as int, VISIBLE_LOGS as int)
    }

    /// An empty panel keeping at most `max_entries` entries, showing levels
    /// up to `Info` and following new entries.
    pub fn new(max_entries: usize) -> (r: Self)
        ensures
            r.wf(),
            r.entries() == Seq::<LogEntry>::empty(),
            r.max() == max_entries,
            r.filter() == LevelFilter::Info,
            r.offset() == 0,
            r.follows(),
    {
        DebugPanel {
            logs: VecDeque::with_capacity(max_entries),
            max_entries,
            level_filter: LevelFilter::Info,
            scroll_offset: 0,
            auto_scroll: true,
        }
    }

    /// An empty panel keeping at most 1000 entries.
    pub fn default() -> (r: Self)
        ensures
            r.wf(),
            r.entries() == Seq::<LogEntry>::empty(),
            r.max() == 1000,
            r.filter() == LevelFilter::Info,
            r.offset() == 0,
            r.follows(),
    {
        Self::new(1000)
    }

    /// The configured maximum number of entries.
    pub fn max_entries(&self) -> (r: usize)
        ensures
            r == self.max(),
    {
        self.max_entries
    }

    /// Number of stored entries, whatever their level.
    pub fn log_count(&self) -> (r: usize)
        ensures
            r == self.entries().len(),
    {
        self.logs.len()
    }

    /// Number of entries assumed visible when scrolling by keys.
    fn visible_log_count(&self) -> (r: usize)
        ensures
            r == VISIBLE_LOGS,
    {
        VISIBLE_LOGS
    }

    /// Adds an entry, dropping the oldest one when the panel is full; the
    /// panel keeps the last `capacity(max)` entries.  When the view follows
    /// new entries it scrolls to the bottom, otherwise it keeps showing the
    /// same entries.
    pub fn add_log(&mut self, entry: LogEntry)
        requires
            old(self).wf(),
        ensures
            final(self).wf(),
            final(self).entries() == keep_last(old(self).entries().push(entry), capacity(old(self).max())),
            final(self).max() == old(self).max(),
            final(self).filter() == old(self).filter(),
            final(self).follows() == old(self).follows(),
            final(self).offset() == if old(self).follows() {
                sat_sub(final(self).entries().len() as int, VISIBLE_LOGS as int)
            } else if old(self).entries().len() >= old(self).max() && old(self).offset() > 0 {
                old(self).offset() - 1
            } else {
                old(self).offset() as int
            },
    {
        let ghost old_logs = self.logs@;
        let ghost cap = capacity(self.max_entries as nat);
        if self.logs.len() >= self.max_entries {
            let _ = self.logs.pop_front();
            if self.scroll_offset > 0 {
                self.scroll_offset = self.scroll_offset - 1;
            }
        }
        self.logs.push_back(entry);
        proof {
            let s = old_logs.push(entry);
            if old_logs.len() >= self.max_entries && old_logs.len() > 0 {
                assert(s.len() > cap);
                assert(self.logs@ =~= s.subrange(s.len() - cap, s.len() as int));
            } else {
                assert(self.logs@ =~= s);
            }
        }
        if self.auto_scroll {
            self.scroll_to_bottom();
        }
    }

    /// Removes all entries and scrolls to the top.
    pub fn clear(&mut self)
        requires
            old(self).wf(),
        ensures
            final(self).wf(),
            final(self).entries() == Seq::<LogEntry>::empty(),
            final(self).offset() == 0,
            final(self).max() == old(self).max(),
            final(self).filter() == old(self).filter(),
            final(self).follows() == old(self).follows(),
    {
        self.logs.clear();
        self.scroll_offset = 0;
    }

    /// Sets the level filter.
    pub fn set_level_filter(&mut self, level: LevelFilter)
        requires
            old(self).wf(),
        ensures
            final(self).wf(),
            final(self).filter() == level,
            final(self).entries() == old(self).entries(),
            final(self).offset() == old(self).offset(),
            final(self).max() == old(self).max(),
            final(self).follows() == old(self).follows(),
    {
        self.level_filter = level;
    }

    /// The current level filter.
    pub fn level_filter(&self) -> (r: LevelFilter)
        ensures
            r == self.filter(),
    {
        self.level_filter
    }

    /// Moves to the next filter: Off, Error, Warn, Info, Debug, Trace, Off.
    pub fn cycle_level_filter(&mut self)
        requires
            old(self).wf(),
        ensures
            final(self).wf(),
            final(self).filter() == next_filter(old(self).filter()),
            final(self).entries() == old(self).entries(),
            final(self).offset() == old(self).offset(),
            final(self).max() == old(self).max(),
            final(self).follows() == old(self).follows(),
    {
        self.level_filter = match self.level_filter {
            LevelFilter::Off => LevelFilter::Error,
            LevelFilter::Error => LevelFilter::Warn,
            LevelFilter::Warn => LevelFilter::Info,
            LevelFilter::Info => LevelFilter::Debug,
            LevelFilter::Trace => LevelFilter::Off,
            LevelFilter::Debug => LevelFilter::Trace,
        };
    }

    /// Upper-case name of the current filter.
    pub fn level_filter_name(&self) -> (r: &'static str)
        ensures
            r@ == filter_name(self.filter()),
    {
        match self.level_filter {
            LevelFilter::Off => "OFF",
            LevelFilter::Error => "ERROR",
            LevelFilter::Warn => "WARN",
            LevelFilter::Info => "INFO",
            LevelFilter::Debug => "DEBUG",
            LevelFilter::Trace => "TRACE",
        }
    }

    /// Scrolls up one line, and stops following new entries, unless at the top.
    pub fn scroll_up(&mut self)
        requires
            old(self).wf(),
        ensures
            final(self).wf(),
            old(self).offset() > 0 ==> final(self).offset() == old(self).offset() - 1 && !final(self).follows(),
            old(self).offset() == 0 ==> final(self).offset() == 0 && final(self).follows() == old(self).follows(),
            final(self).entries() == old(self).entries(),
            final(self).max() == old(self).max(),
            final(self).filter() == old(self).filter(),
    {
        if self.scroll_offset > 0 {
            self.scroll_offset = self.scroll_offset - 1;
            self.auto_scroll = false;
        }
    }

    /// Scrolls down one line, unless at the bottom.
    pub fn scroll_down(&mut self)
        requires
            old(self).wf(),
        ensures
            final(self).wf(),
            final(self).offset() == if old(self).offset() < sat_sub(old(self).entries().len() as int, VISIBLE_LOGS as int) {
                (old(self).offset() + 1) as int
            } else {
                old(self).offset() as int
            },
            final(self).follows() == old(self).follows(),
            final(self).entries() == old(self).entries(),
            final(self).max() == old(self).max(),
            final(self).filter() == old(self).filter(),
    {
        let visible_count = self.visible_log_count();
        let max_offset = self.logs.len().saturating_sub(visible_count);
        if self.scroll_offset < max_offset {
            self.scroll_offset = self.scroll_offset + 1;
        }
    }

    /// Scrolls to the top and stops following new entries.
    pub fn scroll_to_top(&mut self)
        requires
            old(self).wf(),
        ensures
            final(self).wf(),
            final(self).offset() == 0,
            !final(self).follows(),
            final(self).entries() == old(self).entries(),
            final(self).max() == old(self).max(),
            final(self).filter() == old(self).filter(),
    {
        self.scroll_offset = 0;
        self.auto_scroll = false;
    }

    /// Scrolls to the bottom and follows new entries again.
    pub fn scroll_to_bottom(&mut self)
        requires
            old(self).entries().len() <= capacity(old(self).max()),
        ensures
            final(self).wf(),
            final(self).offset() == sat_sub(old(self).entries().len() as int, VISIBLE_LOGS as int),
            final(self).follows(),
            final(self).entries() == old(self).entries(),
            final(self).max() == old(self).max(),
            final(self).filter() == old(self).filter(),
    {
        self.scroll_offset = self.logs.len().saturating_sub(self.visible_log_count());
        self.auto_scroll = true;
    }

    /// Scrolls up by a page (at most to the top) and stops following new entries.
    pub fn page_up(&mut self)
        requires
            old(self).wf(),
        ensures
            final(self).wf(),
            final(self).offset() == sat_sub(old(self).offset() as int, PAGE_SIZE as int),
            !final(self).follows(),
            final(self).entries() == old(self).entries(),
            final(self).max() == old(self).max(),
            final(self).filter() == old(self).filter(),
    {
        self.scroll_offset = self.scroll_offset.saturating_sub(PAGE_SIZE);
        self.auto_scroll = false;
    }

    /// Scrolls down by a page, at most to the bottom.
    pub fn page_down(&mut self)
        requires
            old(self).wf(),
        ensures
            final(self).wf(),
            final(self).offset() == if old(self).offset() + PAGE_SIZE <= sat_sub(old(self).entries().len() as int, VISIBLE_LOGS as int) {
                (old(self).offset() + PAGE_SIZE) as int
            } else {
                sat_sub(old(self).entries().len() as int, VISIBLE_LOGS as int)
            },
            final(self).follows() == old(self).follows(),
            final(self).entries() == old(self).entries(),
            final(self).max() == old(self).max(),
            final(self).filter() == old(self).filter(),
    {
        let visible_count = self.visible_log_count();
        let max_offset = self.logs.len().saturating_sub(visible_count);
        let next = self.scroll_offset + PAGE_SIZE;
        self.scroll_offset = if next <= max_offset { next } else { max_offset };
    }

    /// The current scroll offset.
    pub fn scroll_offset(&self) -> (r: usize)
        ensures
            r == self.offset(),
    {
        self.scroll_offset
    }

    /// Number of entries whose level passes the filter.
    pub fn filtered_count(&self) -> (r: usize)
        ensures
            r == passing(self.entries(), self.filter()).len(),
    {
        let n = self.logs.len();
        let mut count: usize = 0;
        let mut i: usize = 0;
        while i < n
            invariant
                n == self.logs@.len(),
                i <= n,
                count == passing(self.logs@.take(i as int), self.level_filter).len(),
                count <= i,
            decreases n - i,
        {
            proof {
                assert(self.logs@.take(i + 1).drop_last() =~= self.logs@.take(i as int));
            }
            if level_enabled(self.logs[i].level, self.level_filter) {
                count = count + 1;
            }
            i = i + 1;
        }
        assert(self.logs@.take(n as int) =~= self.logs@);
        count
    }

    /// True when no entry passes the filter.
    pub fn is_empty(&self) -> (r: bool)
        ensures
            r == (passing(self.entries(), self.filter()).len() == 0),
    {
        self.filtered_count() == 0
    }

    /// Brings the offset within the entries that pass the filter for a panel
    /// of `area_height` rows (two are borders) and returns what the panel
    /// shows: the title and the visible entries, one line each.
    pub fn prepare_render(&mut self, area_height: u16) -> (r: DebugPanelView)
        requires
            old(self).wf(),
        ensures
            final(self).wf(),
            final(self).entries() == old(self).entries(),
            final(self).max() == old(self).max(),
            final(self).filter() == old(self).filter(),
            final(self).follows() == old(self).follows(),
            ({
                let p = passing(old(self).entries(), old(self).filter());
                let h = sat_sub(area_height as int, 2);
                let off = if old(self).offset() <= sat_sub(p.len() as int, h) {
                    old(self).offset() as int
                } else {
                    sat_sub(p.len() as int, h)
                };
                &&& final(self).offset() == off
                &&& r.title@ == panel_title(old(self).filter(), p.len())
                &&& r.lines@.len() == window(p, off, off + h).len()
                &&& forall|j: int| 0 <= j < r.lines@.len()
                        ==> spans_view(#[trigger] r.lines@[j]@) == log_line(window(p, off, off + h)[j])
            }),
    {
        let count = self.filtered_count();
        let height = area_height.saturating_sub(2) as usize;
        let max_offset = count.saturating_sub(height);
        if self.scroll_offset > max_offset {
            self.scroll_offset = max_offset;
        }
        let off = self.scroll_offset;
        let end = off + height;
        let ghost p = passing(self.logs@, self.level_filter);
        let n = self.logs.len();
        let mut lines: Vec<Vec<Span>> = Vec::new();
        let mut k: usize = 0;
        let mut i: usize = 0;
        while i < n
            invariant
                n == self.logs@.len(),
                i <= n,
                k == passing(self.logs@.take(i as int), self.level_filter).len(),
                k <= i,
                off + height == end,
                lines@.len() == window(passing(self.logs@.take(i as int), self.level_filter), off as int, end as int).len(),
                forall|j: int| 0 <= j < lines@.len()
                    ==> spans_view(#[trigger] lines@[j]@) == log_line(
                        window(passing(self.logs@.take(i as int), self.level_filter), off as int, end as int)[j],
                    ),
            decreases n - i,
        {
            let ghost before = passing(self.logs@.take(i as int), self.level_filter);
            proof {
                assert(self.logs@.take(i + 1).drop_last() =~= self.logs@.take(i as int));
            }
            let e = &self.logs[i];
            if level_enabled(e.level, self.level_filter) {
                let ghost after = before.push(*e);
                assert(passing(self.logs@.take(i + 1), self.level_filter) == after);
                if off <= k && k < end {
                    let line = format_log_entry(e);
                    proof {
                        assert(window(after, off as int, end as int) =~= window(before, off as int, end as int).push(*e));
                    }
                    lines.push(line);
                } else {
                    proof {
                        assert(window(after, off as int, end as int) =~= window(before, off as int, end as int));
                    }
                }
                k = k + 1;
            }
            i = i + 1;
        }
        proof {
            assert(self.logs@.take(n as int) =~= self.logs@);
        }
        let mut title: Vec<char> = Vec::new();
        extend_str(&mut title, "Debug Panel [Level: ");
        extend_str(&mut title, self.level_filter_name());
        extend_str(&mut title, "] [");
        let digits = decimal_chars(count as u64);
        extend_chars(&mut title, digits.as_slice());
        extend_str(&mut title, " logs] [F12:Close l:Level c:Clear]");
        DebugPanelView { title: string_of(title.as_slice()), lines }
    }
}

/// Colour of a level's label.
fn level_color(level: Level) -> (r: Color)
    ensures
        r == level_color_of(level),
{
    match level {
        Level::Error => Color::Red,
        Level::Warn => Color::Yellow,
        Level::Info => Color::Green,
        Level::Debug => Color::Cyan,
        Level::Trace => Color::Rgb(128, 128, 128),
    }
}

/// The level's name padded to five columns.
fn level_label_str(level: Level) -> (r: &'static str)
    ensures
        r@ == level_label(level),
{
    match level {
        Level::Error => "ERROR",
        Level::Warn => "WARN ",
        Level::Info => "INFO ",
        Level::Debug => "DEBUG",
        Level::Trace => "TRACE",
    }
}

/// The spans of one log line.
pub fn format_log_entry(entry: &LogEntry) -> (r: Vec<Span>)
    ensures
        spans_view(r@) == log_line(*entry),
{
    let mut spans: Vec<Span> = Vec::new();
    spans.push(span("[", Style::fg(Color::DarkGray)));
    spans.push(span(entry.timestamp.as_str(), Style::fg(Color::DarkGray)));
    spans.push(span("] ", Style::fg(Color::DarkGray)));
    spans.push(span(level_label_str(entry.level), Style::fg(level_color(entry.level))));
    match &entry.module {
        Some(m) => {
            let mut v: Vec<char> = Vec::new();
            extend_str(&mut v, " [");
            extend_str(&mut v, m.as_str());
            extend_str(&mut v, "] ");
            spans.push(span_chars(v, Style::fg(Color::Rgb(100, 149, 237))));
        },
        None => {
            spans.push(span(" ", Style::plain()));
        },
    }
    spans.push(span(entry.message.as_str(), Style::plain()));
    assert(spans_view(spans@) =~= log_line(*entry));
    spans
}

/// Cycling the level filter six times gives back the filter it started
/// from, after passing through all six filters.
pub proof fn lemma_cycle_period(f: LevelFilter)
    ensures
        next_filter(next_filter(next_filter(next_filter(next_filter(next_filter(f)))))) == f,
        next_filter(f) != f,
        next_filter(next_filter(f)) != f,
        next_filter(next_filter(next_filter(f))) != f,
        next_filter(next_filter(next_filter(next_filter(f)))) != f,
        next_filter(next_filter(next_filter(next_filter(next_filter(f))))) != f,
{
}

/// The entries that pass a filter are the stored entries of at most that
/// verbosity, and a more verbose filter lets through at least as many.
pub proof fn lemma_passing_monotone(s: Seq<LogEntry>, f: LevelFilter, g: LevelFilter)
    requires
        f.rank() <= g.rank(),
    ensures
        passing(s, f).len() <= passing(s, g).len(),
        passing(s, LevelFilter::Trace) == s,
        passing(s, LevelFilter::Off).len() == 0,
    decreases s.len(),
{
    if s.len() > 0 {
        lemma_passing_monotone(s.drop_last(), f, g);
        assert(s.drop_last().push(s.last()) =~= s);
    }
}

} // verus!
