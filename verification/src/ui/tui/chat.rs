//! The conversation as the terminal UI keeps it: the finished messages,
//! the reasoning and answer being streamed, and the status shown for them,
//! updated by the agent's events.
use vstd::prelude::*;
use crate::text::{chars_of, eq_str, extend_str, string_of, trim, trim_chars};
use crate::tools::domain::json_value::JsonValue;
use crate::ui::tui::input_status::{InputStatus, InputStatusIndicator};
use crate::ui::tui::status_bar::StatusBar;

verus! {

/// State of a tool call shown in the conversation.
#[derive(Debug)]
pub enum ToolStatus {
    Running,
    Done,
    Error(String),
}

/// A message of the conversation.
#[derive(Debug)]
pub enum ChatMessage {
    User { content: String },
    Assistant { content: String },
    Thinking { content: String, expanded: bool },
    ToolCall { name: String, status: ToolStatus },
    System { content: String },
}

/// An event from the agent run.
#[derive(Debug)]
pub enum TuiEvent {
    /// A piece of streamed reasoning.
    AgentReasoning(String),
    /// A piece of the streamed answer.
    AgentText(String),
    /// The agent calls a tool.
    AgentToolCall { name: String, input: JsonValue },
    /// A tool call finished.
    AgentToolDone { name: String },
    /// The run failed.
    AgentError(String),
    /// The run finished.
    AgentResponseComplete,
    /// Periodic wake-up.
    Tick,
}

/// Content of a tool status.
pub enum ToolStatusView {
    Running,
    Done,
    Error(Seq<char>),
}

/// Content of a message.
pub enum MessageView {
    User(Seq<char>),
    Assistant(Seq<char>),
    Thinking(Seq<char>, bool),
    ToolCall(Seq<char>, ToolStatusView),
    System(Seq<char>),
}

/// Content of an event.
pub enum EventView {
    Reasoning(Seq<char>),
    Text(Seq<char>),
    ToolCall(Seq<char>),
    ToolDone(Seq<char>),
    Error(Seq<char>),
    Complete,
    Tick,
}

/// Content of the conversation state.
pub struct ChatView {
    pub messages: Seq<MessageView>,
    pub reasoning: Seq<char>,
    pub response: Seq<char>,
    pub last_tool_call: Option<Seq<char>>,
    pub status_message: Seq<char>,
    pub streaming: bool,
    pub input_status: InputStatus,
}

pub open spec fn tool_status_view(s: ToolStatus) -> ToolStatusView {
    match s {
        ToolStatus::Running => ToolStatusView::Running,
        ToolStatus::Done => ToolStatusView::Done,
        ToolStatus::Error(e) => ToolStatusView::Error(e@),
    }
}

pub open spec fn message_view(m: ChatMessage) -> MessageView {
    match m {
        ChatMessage::User { content } => MessageView::User(content@),
        ChatMessage::Assistant { content } => MessageView::Assistant(content@),
        ChatMessage::Thinking { content, expanded } => MessageView::Thinking(content@, expanded),
        ChatMessage::ToolCall { name, status } => MessageView::ToolCall(name@, tool_status_view(status)),
        ChatMessage::System { content } => MessageView::System(content@),
    }
}

pub open spec fn messages_view(v: Seq<ChatMessage>) -> Seq<MessageView> {
    v.map_values(|m: ChatMessage| message_view(m))
}

pub open spec fn event_view(e: TuiEvent) -> EventView {
    match e {
        TuiEvent::AgentReasoning(d) => EventView::Reasoning(d@),
        TuiEvent::AgentText(d) => EventView::Text(d@),
        TuiEvent::AgentToolCall { name, input } => EventView::ToolCall(name@),
        TuiEvent::AgentToolDone { name } => EventView::ToolDone(name@),
        TuiEvent::AgentError(e) => EventView::Error(e@),
        TuiEvent::AgentResponseComplete => EventView::Complete,
        TuiEvent::Tick => EventView::Tick,
    }
}

/// The messages once the streamed reasoning and answer are kept: the
/// reasoning as a collapsed thinking block, then the answer, each only when
/// not empty.
pub open spec fn flushed(messages: Seq<MessageView>, reasoning: Seq<char>, response: Seq<char>) -> Seq<MessageView> {
    let a = if reasoning.len() > 0 {
        messages.push(MessageView::Thinking(reasoning, false))
    } else {
        messages
    };
    if response.len() > 0 {
        a.push(MessageView::Assistant(response))
    } else {
        a
    }
}

/// Index of the last tool call named `name` among `m[..n]`.
pub open spec fn last_tool_call_at(m: Seq<MessageView>, name: Seq<char>, n: int) -> Option<int>
    decreases n,
{
    if n <= 0 {
        None
    } else if m[n - 1] matches MessageView::ToolCall(x, _) && x == name {
        Some(n - 1)
    } else {
        last_tool_call_at(m, name, n - 1)
    }
}

/// The messages with the last tool call named `name` marked done.
pub open spec fn mark_done(m: Seq<MessageView>, name: Seq<char>) -> Seq<MessageView> {
    match last_tool_call_at(m, name, m.len() as int) {
        Some(i) => m.update(i, MessageView::ToolCall(name, ToolStatusView::Done)),
        None => m,
    }
}

/// The text shown for a failed run.
pub open spec fn error_text(e: Seq<char>) -> Seq<char> {
    "❌ 错误: "@ + e
}

/// How an event changes the conversation.  A lone line break that would
/// start the reasoning or the answer is dropped; streamed pieces are
/// appended; a tool call is added as running and marked done when it
/// finishes; an error or the end of the run keeps what was streamed as
/// messages (an error adding its text) and stops the streaming.
pub open spec fn chat_step(c: ChatView, e: EventView) -> ChatView {
    match e {
        EventView::Reasoning(d) => if d == "\n"@ && c.reasoning.len() == 0 {
            c
        } else {
            ChatView { reasoning: c.reasoning + d, streaming: true, status_message: "Processing..."@, ..c }
        },
        EventView::Text(d) => if d == "\n"@ && c.response.len() == 0 {
            c
        } else {
            ChatView { response: c.response + d, streaming: true, status_message: "Processing..."@, ..c }
        },
        EventView::ToolCall(name) => ChatView {
            messages: c.messages.push(MessageView::ToolCall(name, ToolStatusView::Running)),
            last_tool_call: Some(name),
            status_message: "Running tool: "@ + name,
            ..c
        },
        EventView::ToolDone(name) => ChatView {
            messages: mark_done(c.messages, name),
            status_message: "Ready"@,
            ..c
        },
        EventView::Error(err) => ChatView {
            messages: flushed(c.messages, c.reasoning, c.response).push(MessageView::System(error_text(err))),
            reasoning: Seq::empty(),
            response: Seq::empty(),
            streaming: false,
            status_message: "Error"@,
            ..c
        },
        EventView::Complete => ChatView {
            messages: flushed(c.messages, c.reasoning, c.response),
            reasoning: Seq::empty(),
            response: Seq::empty(),
            streaming: false,
            status_message: "Ready"@,
            input_status: InputStatus::Sent,
            ..c
        },
        EventView::Tick => c,
    }
}

/// Whether an event clears the text selection (streamed pieces do).
pub open spec fn clears_selection(e: EventView) -> bool {
    e is Reasoning || e is Text
}

/// The messages with the last thinking block's `expanded` flipped.
pub open spec fn toggled_last_thinking(m: Seq<MessageView>) -> Seq<MessageView>
    decreases m.len(),
{
    if m.len() == 0 {
        m
    } else if let MessageView::Thinking(c, x) = m.last() {
        m.drop_last().push(MessageView::Thinking(c, !x))
    } else {
        toggled_last_thinking(m.drop_last()).push(m.last())
    }
}


/// No event drops or reorders a finished message: the messages before an
/// event are a prefix of the messages after it, except that a finished
/// tool call changes the status of one tool call of the same name to done.
pub proof fn law_history_kept(c: ChatView, e: EventView)
    ensures
        !(e is ToolDone) ==> chat_step(c, e).messages.len() >= c.messages.len() && chat_step(c, e).messages.take(
            c.messages.len() as int,
        ) == c.messages,
        e is ToolDone ==> chat_step(c, e).messages.len() == c.messages.len() && forall|i: int|
            0 <= i < c.messages.len() && chat_step(c, e).messages[i] != c.messages[i] ==> (c.messages[i] matches MessageView::ToolCall(n, _) && #[trigger] chat_step(c, e).messages[i] == MessageView::ToolCall(n, ToolStatusView::Done)),
{
    match e {
        EventView::ToolDone(name) => {
            lemma_last_tool_call_at(c.messages, name, c.messages.len() as int);
        },
        EventView::Error(err) => {
            assert(flushed(c.messages, c.reasoning, c.response).push(MessageView::System(error_text(err))).take(
                c.messages.len() as int,
            ) =~= c.messages);
        },
        _ => {
            assert(chat_step(c, e).messages.take(c.messages.len() as int) =~= c.messages);
        },
    }
}

proof fn lemma_last_tool_call_at(m: Seq<MessageView>, name: Seq<char>, n: int)
    requires
        n <= m.len(),
    ensures
        last_tool_call_at(m, name, n) matches Some(i) ==> (0 <= i < n && (m[i] matches MessageView::ToolCall(x, _) && x == name)),
    decreases n,
{
    if n > 0 {
        lemma_last_tool_call_at(m, name, n - 1);
    }
}

/// What was streamed is kept when the run ends: both buffers are emptied,
/// the reasoning (if any) becomes a collapsed thinking block and the answer
/// (if any) the last message, after all earlier messages.
pub proof fn law_complete_keeps_stream(c: ChatView)
    ensures
        chat_step(c, EventView::Complete).reasoning.len() == 0,
        chat_step(c, EventView::Complete).response.len() == 0,
        !chat_step(c, EventView::Complete).streaming,
        c.response.len() > 0 ==> chat_step(c, EventView::Complete).messages.last() == MessageView::Assistant(c.response),
        c.reasoning.len() > 0 && c.response.len() == 0 ==> chat_step(c, EventView::Complete).messages.last()
            == MessageView::Thinking(c.reasoning, false),
        chat_step(c, EventView::Complete).messages.len() == c.messages.len() + (if c.reasoning.len() > 0 {
            1int
        } else {
            0int
        }) + (if c.response.len() > 0 {
            1int
        } else {
            0int
        }),
{
}

/// Streamed pieces of the answer accumulate in order: after pieces `a` and
/// `b` (the first not a lone line break starting the answer) the answer is
/// the earlier answer followed by `a` and `b`.
pub proof fn law_text_accumulates(c: ChatView, a: Seq<char>, b: Seq<char>)
    requires
        !(a == "\n"@ && c.response.len() == 0),
        a.len() > 0,
    ensures
        chat_step(chat_step(c, EventView::Text(a)), EventView::Text(b)).response == c.response + a + b,
{
    let c1 = chat_step(c, EventView::Text(a));
    assert(c1.response == c.response + a);
    assert(c1.response.len() > 0);
}

/// Toggling the last thinking block twice restores the messages.
pub proof fn law_toggle_twice(m: Seq<MessageView>)
    ensures
        toggled_last_thinking(toggled_last_thinking(m)) == m,
    decreases m.len(),
{
    if m.len() > 0 {
        if let MessageView::Thinking(c, x) = m.last() {
            assert(toggled_last_thinking(m).drop_last() =~= m.drop_last());
            assert(toggled_last_thinking(m).push(MessageView::Thinking(c, !x)).len() > 0);
        } else {
            law_toggle_twice(m.drop_last());
            assert(toggled_last_thinking(m).drop_last() =~= toggled_last_thinking(m.drop_last()));
            assert(toggled_last_thinking(toggled_last_thinking(m)) =~= toggled_last_thinking(toggled_last_thinking(m.drop_last())).push(m.last()));
            assert(m.drop_last().push(m.last()) =~= m);
        }
    }
}

/// The conversation kept by the terminal UI.
pub struct ChatLog {
    messages: Vec<ChatMessage>,
    current_reasoning: String,
    current_response: String,
    last_tool_call: Option<String>,
    status: StatusBar,
    input_status: InputStatusIndicator,
}

/// `a` followed by `b`.
fn concat(a: &str, b: &str) -> (r: String)
    ensures
        r@ == a@ + b@,
{
    let mut v = chars_of(a);
    extend_str(&mut v, b);
    string_of(v.as_slice())
}

impl ChatMessage {
    /// Whether this is a thinking block.
    pub fn is_thinking(&self) -> (r: bool)
        ensures
            r == (message_view(*self) is Thinking),
    {
        match self {
            ChatMessage::Thinking { .. } => true,
            _ => false,
        }
    }
}

impl ChatLog {
    /// The content of the conversation, with the status bar's message and
    /// streaming flag; the whole status bar (session, connection, tool
    /// count, model, status time) is `status_bar`.
    pub closed spec fn view(&self) -> ChatView {
        ChatView {
            messages: messages_view(self.messages@),
            reasoning: self.current_reasoning@,
            response: self.current_response@,
            last_tool_call: match self.last_tool_call {
                Some(n) => Some(n@),
                None => None,
            },
            status_message: self.status.status_message@,
            streaming: self.status.is_streaming,
            input_status: self.input_status.current(),
        }
    }

    /// The status bar.
    pub closed spec fn status_bar(&self) -> StatusBar {
        self.status
    }

    /// An empty conversation, ready, with an idle input.
    pub fn new() -> (r: Self)
        ensures
            r.view().messages.len() == 0,
            r.view().reasoning.len() == 0,
            r.view().response.len() == 0,
            r.view().last_tool_call is None,
            r.view().input_status == InputStatus::Idle,
            r.view().status_message == "Ready"@,
            !r.view().streaming,
            crate::ui::tui::status_bar::initial_status_bar(r.status_bar()),
    {
        let r = ChatLog {
            messages: Vec::new(),
            current_reasoning: String::new(),
            current_response: String::new(),
            last_tool_call: None,
            status: StatusBar::new(),
            input_status: InputStatusIndicator::new(),
        };
        assert(messages_view(r.messages@) =~= Seq::<MessageView>::empty());
        r
    }

    /// The messages, in order.
    pub fn messages(&self) -> (r: &Vec<ChatMessage>)
        ensures
            messages_view(r@) == self.view().messages,
    {
        &self.messages
    }

    /// The reasoning being streamed.
    pub fn current_reasoning(&self) -> (r: &str)
        ensures
            r@ == self.view().reasoning,
    {
        self.current_reasoning.as_str()
    }

    /// The answer being streamed.
    pub fn current_response(&self) -> (r: &str)
        ensures
            r@ == self.view().response,
    {
        self.current_response.as_str()
    }

    /// The status bar.
    pub fn status(&self) -> (r: &StatusBar)
        ensures
            *r == self.status_bar(),
            r.status_message@ == self.view().status_message,
            r.is_streaming == self.view().streaming,
    {
        &self.status
    }

    /// The input status indicator.
    pub fn input_status(&mut self) -> (r: &mut InputStatusIndicator)
        ensures
            r.current() == old(self).view().input_status,
            final(self).view() == (ChatView { input_status: final(r).current(), ..old(self).view() }),
            final(self).status_bar() == old(self).status_bar(),
    {
        &mut self.input_status
    }

    /// Whether any message is a thinking block.
    pub fn has_thinking(&self) -> (r: bool)
        ensures
            r == exists|i: int| 0 <= i < self.view().messages.len() && (#[trigger] self.view().messages[i]) is Thinking,
    {
        let mut i: usize = 0;
        while i < self.messages.len()
            invariant
                i <= self.messages@.len(),
                forall|k: int| 0 <= k < i ==> !(#[trigger] messages_view(self.messages@)[k] is Thinking),
            decreases self.messages.len() - i,
        {
            if self.messages[i].is_thinking() {
                assert(messages_view(self.messages@)[i as int] is Thinking);
                return true;
            }
            i += 1;
        }
        false
    }

    /// Keeps the streamed reasoning and answer as messages and empties them.
    fn flush(&mut self)
        ensures
            final(self).view() == (ChatView {
                messages: flushed(old(self).view().messages, old(self).view().reasoning, old(self).view().response),
                reasoning: Seq::empty(),
                response: Seq::empty(),
                ..old(self).view()
            }),
            final(self).status_bar() == old(self).status_bar(),
    {
        let ghost m0 = messages_view(self.messages@);
        let ghost r0 = self.current_reasoning@;
        let ghost a0 = self.current_response@;
        if !self.current_reasoning.as_str().is_empty() {
            let mut content = String::new();
            std::mem::swap(&mut content, &mut self.current_reasoning);
            self.messages.push(ChatMessage::Thinking { content, expanded: false });
        } else {
            self.current_reasoning = String::new();
        }
        assert(messages_view(self.messages@) =~= if r0.len() > 0 {
            m0.push(MessageView::Thinking(r0, false))
        } else {
            m0
        });
        let ghost m1 = messages_view(self.messages@);
        if !self.current_response.as_str().is_empty() {
            let mut content = String::new();
            std::mem::swap(&mut content, &mut self.current_response);
            self.messages.push(ChatMessage::Assistant { content });
        } else {
            self.current_response = String::new();
        }
        assert(messages_view(self.messages@) =~= if a0.len() > 0 {
            m1.push(MessageView::Assistant(a0))
        } else {
            m1
        });
        assert(self.current_reasoning@ =~= Seq::<char>::empty());
        assert(self.current_response@ =~= Seq::<char>::empty());
    }

    /// Marks the last tool call named `name` done.
    fn mark_tool_done(&mut self, name: &str)
        ensures
            final(self).view() == (ChatView { messages: mark_done(old(self).view().messages, name@), ..old(self).view() }),
            final(self).status_bar() == old(self).status_bar(),
    {
        let ghost m0 = messages_view(self.messages@);
        let nc = chars_of(name);
        let mut i: usize = self.messages.len();
        while i > 0
            invariant
                i <= self.messages@.len(),
                messages_view(self.messages@) == m0,
                self.current_reasoning == old(self).current_reasoning,
                self.current_response == old(self).current_response,
                self.last_tool_call == old(self).last_tool_call,
                self.status == old(self).status,
                self.input_status == old(self).input_status,
                m0 == messages_view(old(self).messages@),
                nc@ == name@,
                last_tool_call_at(m0, name@, m0.len() as int) == last_tool_call_at(m0, name@, i as int),
            decreases i,
        {
            let is_match = match &self.messages[i - 1] {
                ChatMessage::ToolCall { name: n, .. } => {
                    let c = chars_of(n.as_str());
                    crate::text::chars_eq(c.as_slice(), nc.as_slice())
                },
                _ => false,
            };
            assert(m0[i - 1] == message_view(self.messages@[i - 1]));
            if is_match {
                let ghost before = self.messages@;
                self.messages.set(i - 1, ChatMessage::ToolCall { name: name.to_owned(), status: ToolStatus::Done });
                assert(messages_view(self.messages@) =~= m0.update(i - 1, MessageView::ToolCall(
                    name@,
                    ToolStatusView::Done,
                )));
                return;
            }
            i -= 1;
        }
    }

    /// Applies an event from the agent run.  Returns whether the text
    /// selection is to be cleared (it is for streamed pieces).
    pub fn handle_event(&mut self, event: TuiEvent) -> (r: bool)
        ensures
            final(self).view() == chat_step(old(self).view(), event_view(event)),
            r == clears_selection(event_view(event)),
            final(self).status_bar().session_id == old(self).status_bar().session_id,
            final(self).status_bar().connected == old(self).status_bar().connected,
            final(self).status_bar().tool_count == old(self).status_bar().tool_count,
            final(self).status_bar().model == old(self).status_bar().model,
    {
        proof {
            reveal_strlit("\n");
        }
        match event {
            TuiEvent::AgentReasoning(delta) => {
                let d = chars_of(delta.as_str());
                if eq_str(d.as_slice(), "\n") && self.current_reasoning.as_str().is_empty() {
                    return true;
                }
                self.current_reasoning = concat(self.current_reasoning.as_str(), delta.as_str());
                self.status.set_streaming(true);
                true
            },
            TuiEvent::AgentText(delta) => {
                let d = chars_of(delta.as_str());
                if eq_str(d.as_slice(), "\n") && self.current_response.as_str().is_empty() {
                    return true;
                }
                self.current_response = concat(self.current_response.as_str(), delta.as_str());
                self.status.set_streaming(true);
                true
            },
            TuiEvent::AgentToolCall { name, input } => {
                let ghost m0 = messages_view(self.messages@);
                self.messages.push(ChatMessage::ToolCall { name: name.clone(), status: ToolStatus::Running });
                assert(messages_view(self.messages@) =~= m0.push(MessageView::ToolCall(name@, ToolStatusView::Running)));
                self.status.set_status(concat("Running tool: ", name.as_str()));
                self.last_tool_call = Some(name);
                false
            },
            TuiEvent::AgentToolDone { name } => {
                self.mark_tool_done(name.as_str());
                self.status.set_status("Ready".to_owned());
                false
            },
            TuiEvent::AgentError(err) => {
                self.flush();
                let ghost m1 = messages_view(self.messages@);
                self.messages.push(ChatMessage::System { content: concat("❌ 错误: ", err.as_str()) });
                assert(messages_view(self.messages@) =~= m1.push(MessageView::System(error_text(err@))));
                self.status.set_streaming(false);
                self.status.set_status("Error".to_owned());
                false
            },
            TuiEvent::AgentResponseComplete => {
                self.flush();
                self.status.set_streaming(false);
                self.input_status.set_status(InputStatus::Sent);
                false
            },
            TuiEvent::Tick => false,
        }
    }

    /// Flips the last thinking block between collapsed and expanded.
    pub fn toggle_last_thinking(&mut self)
        ensures
            final(self).view() == (ChatView {
                messages: toggled_last_thinking(old(self).view().messages),
                ..old(self).view()
            }),
            final(self).status_bar() == old(self).status_bar(),
    {
        let ghost m0 = messages_view(self.messages@);
        let mut i: usize = self.messages.len();
        assert(m0.take(m0.len() as int) =~= m0);
        assert(m0.skip(m0.len() as int) =~= Seq::<MessageView>::empty());
        while i > 0
            invariant
                i <= self.messages@.len(),
                messages_view(self.messages@) == m0,
                self.current_reasoning == old(self).current_reasoning,
                self.current_response == old(self).current_response,
                self.last_tool_call == old(self).last_tool_call,
                self.status == old(self).status,
                self.input_status == old(self).input_status,
                m0 == messages_view(old(self).messages@),
                toggled_last_thinking(m0) == toggled_last_thinking(m0.take(i as int)) + m0.skip(i as int),
            decreases i,
        {
            let ghost t = m0.take(i as int);
            assert(t.drop_last() =~= m0.take(i - 1));
            assert(t.last() == m0[i - 1]);
            assert(m0[i - 1] == message_view(self.messages@[i - 1]));
            let found = match &self.messages[i - 1] {
                ChatMessage::Thinking { content, expanded } => Some((content.clone(), *expanded)),
                _ => None,
            };
            match found {
                Some((content, expanded)) => {
                    let ghost cv = content@;
                    self.messages.set(i - 1, ChatMessage::Thinking { content, expanded: !expanded });
                    assert(t.last() == MessageView::Thinking(cv, expanded));
                    assert(messages_view(self.messages@) =~= m0.take(i - 1).push(
                        MessageView::Thinking(cv, !expanded),
                    ) + m0.skip(i as int));
                    return;
                },
                None => {
                    assert(m0.take(i - 1).push(m0[i - 1]) + m0.skip(i as int) =~= m0.take(i - 1) + m0.skip(i - 1));
                },
            }
            i -= 1;
        }
        assert(m0.take(0) =~= Seq::<MessageView>::empty());
        assert(m0.skip(0) =~= m0);
    }

    /// Starts sending `input`: nothing happens when it is blank; otherwise
    /// its trimmed text becomes a user message, the streamed buffers are
    /// emptied, the input shows as sending and the status as streaming, and
    /// the text to send to the agent is returned.
    pub fn begin_send(&mut self, input: &str) -> (r: Option<String>)
        ensures
            trim(input@).len() == 0 ==> r is None && final(self).view() == old(self).view()
                && final(self).status_bar() == old(self).status_bar(),
            trim(input@).len() > 0 ==> (r matches Some(t) && t@ == trim(input@)),
            final(self).status_bar().session_id == old(self).status_bar().session_id,
            final(self).status_bar().connected == old(self).status_bar().connected,
            final(self).status_bar().tool_count == old(self).status_bar().tool_count,
            final(self).status_bar().model == old(self).status_bar().model,
            trim(input@).len() > 0 ==> final(self).view() == (ChatView {
                messages: old(self).view().messages.push(MessageView::User(trim(input@))),
                reasoning: Seq::empty(),
                response: Seq::empty(),
                streaming: true,
                status_message: "Processing..."@,
                input_status: InputStatus::Sending,
                ..old(self).view()
            }),
    {
        let c = chars_of(input);
        let t = trim_chars(c.as_slice());
        if t.len() == 0 {
            return None;
        }
        let text = string_of(t.as_slice());
        self.input_status.set_status(InputStatus::Sending);
        let ghost m0 = messages_view(self.messages@);
        self.messages.push(ChatMessage::User { content: text.clone() });
        assert(messages_view(self.messages@) =~= m0.push(MessageView::User(trim(input@))));
        self.current_reasoning = String::new();
        self.current_response = String::new();
        self.status.set_streaming(true);
        Some(text)
    }
}

} // verus!
