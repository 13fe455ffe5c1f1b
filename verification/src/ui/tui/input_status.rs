//! Input status indicator: feedback on the input state (typing, sending,
//! sent), with temporary states falling back to idle after a while.
use vstd::prelude::*;
use std::time::{Duration, Instant};
use crate::ui::tui::styled::{fg_style, plain_style, span, spans_view, Color, Span, Style};

verus! {

/// Input status.
#[derive(Debug, Clone, Copy, PartialEq, Eq, Structural)]
pub enum InputStatus {
    /// Nothing happening.
    Idle,
    /// The user is typing.
    Typing,
    /// A message is being sent.
    Sending,
    /// A message was sent.
    Sent,
}

#[verifier::external_type_specification]
#[verifier::external_body]
pub struct ExInstant(Instant);

/// `Instant::now`: the current time; nothing is stated of it.
#[verifier::external_body]
fn instant_now() -> (r: Instant) {
    Instant::now()
}

/// `Instant::elapsed`: the time since `t`; nothing is stated of it.
#[verifier::external_body]
fn instant_elapsed(t: &Instant) -> (r: Duration) {
    t.elapsed()
}

/// `Duration::as_nanos`: the whole duration in nanoseconds; nothing is
/// stated of it here, as the duration is opaque.
#[verifier::external_body]
fn duration_nanos(d: &Duration) -> (r: u128) {
    d.as_nanos()
}

/// `Sent` falls back to idle after more than one second.
pub const SENT_RESET_NANOS: u128 = 1_000_000_000;

/// `Typing` falls back to idle after more than five seconds.
pub const TYPING_RESET_NANOS: u128 = 5_000_000_000;

/// The status after `elapsed_nanos` nanoseconds in `s`.
pub open spec fn reset_status(s: InputStatus, elapsed_nanos: u128) -> InputStatus {
    if s == InputStatus::Sent && elapsed_nanos > SENT_RESET_NANOS {
        InputStatus::Idle
    } else if s == InputStatus::Typing && elapsed_nanos > TYPING_RESET_NANOS {
        InputStatus::Idle
    } else {
        s
    }
}

/// The icon, label and colour shown for a status.
pub open spec fn status_display(s: InputStatus) -> (Seq<char>, Seq<char>, Color) {
    match s {
        InputStatus::Idle => (""@, ""@, Color::Gray),
        InputStatus::Typing => ("✎"@, "输入中"@, Color::Cyan),
        InputStatus::Sending => ("⏳"@, "发送中"@, Color::Yellow),
        InputStatus::Sent => ("✓"@, "已发送"@, Color::Green),
    }
}

/// The spans shown for a status: icon, a space, label.
pub open spec fn status_line(s: InputStatus) -> Seq<(Seq<char>, Style)> {
    let (icon, text, color) = status_display(s);
    seq![(icon, fg_style(color)), (" "@, plain_style()), (text, fg_style(color))]
}

/// Input status indicator.
pub struct InputStatusIndicator {
    status: InputStatus,
    status_updated: Instant,
}

impl InputStatusIndicator {
    /// The current status.
    pub closed spec fn current(&self) -> InputStatus {
        self.status
    }

    /// An idle indicator.
    pub fn new() -> (r: Self)
        ensures
            r.current() == InputStatus::Idle,
    {
        InputStatusIndicator { status: InputStatus::Idle, status_updated: instant_now() }
    }

    /// Sets the status and restarts its clock.
    pub fn set_status(&mut self, status: InputStatus)
        ensures
            final(self).current() == status,
    {
        self.status = status;
        self.status_updated = instant_now();
    }

    /// The current status.
    pub fn status(&self) -> (r: InputStatus)
        ensures
            r == self.current(),
    {
        self.status
    }

    /// Falls back to idle when the status has lasted `elapsed_nanos`
    /// nanoseconds: `Sent` after more than one second, `Typing` after more
    /// than five.  Returns whether it fell back.
    pub fn apply_auto_reset(&mut self, elapsed_nanos: u128) -> (r: bool)
        ensures
            final(self).current() == reset_status(old(self).current(), elapsed_nanos),
            r == (final(self).current() != old(self).current()),
    {
        if self.status == InputStatus::Sent && elapsed_nanos > SENT_RESET_NANOS {
            self.status = InputStatus::Idle;
            return true;
        }
        if self.status == InputStatus::Typing && elapsed_nanos > TYPING_RESET_NANOS {
            self.status = InputStatus::Idle;
            return true;
        }
        false
    }

    /// Falls back to idle when a temporary status has lasted long enough,
    /// measured on the clock.  Returns whether it fell back.
    pub fn check_auto_reset(&mut self) -> (r: bool)
        ensures
            exists|e: u128| final(self).current() == reset_status(old(self).current(), e),
            r == (final(self).current() != old(self).current()),
    {
        let d = instant_elapsed(&self.status_updated);
        let nanos = duration_nanos(&d);
        self.apply_auto_reset(nanos)
    }

    /// The icon, label and colour for the current status.
    fn get_display(&self) -> (r: (&'static str, &'static str, Color))
        ensures
            (r.0@, r.1@, r.2) == status_display(self.current()),
    {
        match self.status {
            InputStatus::Idle => ("", "", Color::Gray),
            InputStatus::Typing => ("✎", "输入中", Color::Cyan),
            InputStatus::Sending => ("⏳", "发送中", Color::Yellow),
            InputStatus::Sent => ("✓", "已发送", Color::Green),
        }
    }

    /// Applies the automatic fall-back, then returns the line to draw:
    /// nothing when idle.
    pub fn render_view(&mut self) -> (r: Option<Vec<Span>>)
        ensures
            exists|e: u128| final(self).current() == reset_status(old(self).current(), e),
            final(self).current() == InputStatus::Idle ==> r is None,
            final(self).current() != InputStatus::Idle ==> (r matches Some(v) && spans_view(v@) == status_line(final(self).current())),
    {
        self.check_auto_reset();
        let (icon, text, color) = self.get_display();
        if self.status == InputStatus::Idle {
            return None;
        }
        let mut v: Vec<Span> = Vec::new();
        v.push(span(icon, Style::fg(color)));
        v.push(span(" ", Style::plain()));
        v.push(span(text, Style::fg(color)));
        assert(spans_view(v@) =~= status_line(self.status));
        Some(v)
    }
}

} // verus!
