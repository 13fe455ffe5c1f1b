use coding_agent::ui::tui::autocomplete::{FileAutocomplete, FileInfo};
use coding_agent::ui::tui::chat::{ChatLog, ChatMessage, ToolStatus, TuiEvent};
use coding_agent::ui::tui::conversation::{conversation_lines, copy_lines, wrap_text};
use coding_agent::ui::tui::input::{
    autocomplete_action, directory_text, filter_after, normal_key_action, opens_popup, text_with_file,
    AutocompleteAction, InputAction, InputMode,
};
use coding_agent::ui::tui::input_status::InputStatus;
use coding_agent::ui::tui::markdown::{MarkdownRenderer, MdEvent};
use coding_agent::ui::tui::layout::calculate_layout;
use coding_agent::ui::tui::selection::{
    apply_selection_highlight, extract_selected_text, Rect, SelectionTarget, TextPosition, TextSelection,
};
use coding_agent::ui::tui::status_bar::StatusBar;
use coding_agent::ui::tui::styled::{Color, Span, Style};
use coding_agent::ui::tui::tui_state::{
    copy_notice_text, CopyResult, KeyCode, KeyEffect, KeyInput, MouseInput, MouseKind, MouseOutcome, ScreenAreas,
    TuiState,
};
use coding_agent::tools::domain::json_value::JsonValue;

fn key(code: KeyCode) -> KeyInput {
    KeyInput { code, control: false, shift: false }
}

fn line_text(spans: &[Span]) -> String {
    spans.iter().map(|s| s.content.as_str()).collect()
}

fn texts(lines: &[Vec<Span>]) -> Vec<String> {
    lines.iter().map(|l| line_text(l)).collect()
}

fn text_event(t: &str) -> TuiEvent {
    TuiEvent::AgentText(t.to_string())
}

#[test]
fn render_events_paragraph() {
    let events = vec![MdEvent::StartParagraph, MdEvent::Text("Hello world".to_string()), MdEvent::EndParagraph];
    let lines = MarkdownRenderer::render_events(&events, 80);
    assert!(!lines.is_empty());
    assert_eq!(texts(&lines), vec!["Hello world".to_string(), String::new()]);
}

#[test]
fn render_events_emphasis() {
    let events = vec![
        MdEvent::StartParagraph,
        MdEvent::StartOther,
        MdEvent::Text("bold text".to_string()),
        MdEvent::EndOther,
        MdEvent::EndParagraph,
    ];
    let lines = MarkdownRenderer::render_events(&events, 80);
    assert!(!lines.is_empty());
    assert_eq!(lines[0][0].style.fg, Some(Color::White));
}

#[test]
fn render_events_code_block() {
    let events = vec![
        MdEvent::StartCodeBlock("rust".to_string()),
        MdEvent::Text("fn main() {}\n".to_string()),
        MdEvent::EndCodeBlock,
    ];
    let lines = MarkdownRenderer::render_events(&events, 80);
    assert!(!lines.is_empty());
    assert_eq!(
        texts(&lines),
        vec!["```rust".to_string(), " fn main() {}".to_string(), "```".to_string(), String::new()]
    );
    assert_eq!(lines[1][0].style.fg, Some(Color::Cyan));
}

#[test]
fn markdown_heading_quote_rule_and_table() {
    let events = vec![
        MdEvent::StartHeading(2),
        MdEvent::Text("Title".to_string()),
        MdEvent::EndHeading,
        MdEvent::StartBlockQuote,
        MdEvent::StartParagraph,
        MdEvent::Text("quoted".to_string()),
        MdEvent::EndParagraph,
        MdEvent::EndBlockQuote,
        MdEvent::Rule,
        MdEvent::StartTable(2),
        MdEvent::StartTableHead,
        MdEvent::EndTableHead,
        MdEvent::EndTable,
        MdEvent::StartItem,
        MdEvent::Code("x".to_string()),
        MdEvent::InlineMath("a+b".to_string()),
    ];
    let lines = MarkdownRenderer::render_events(&events, 5);
    assert_eq!(
        texts(&lines),
        vec![
            "## Title".to_string(),
            String::new(),
            "│ quoted".to_string(),
            String::new(),
            String::new(),
            "─────".to_string(),
            "|---|---|".to_string(),
            String::new(),
            "• `x`$a+b$".to_string(),
        ]
    );
}

#[test]
fn chat_streams_and_completes() {
    let mut chat = ChatLog::new();
    assert!(!chat.handle_event(TuiEvent::AgentToolCall { name: "read".to_string(), input: JsonValue::Null }));
    assert!(chat.handle_event(TuiEvent::AgentReasoning("think".to_string())));
    assert!(chat.handle_event(text_event("\n")));
    assert_eq!(chat.current_response(), "");
    assert!(chat.handle_event(text_event("Hello")));
    assert!(chat.handle_event(text_event(", world")));
    assert_eq!(chat.current_response(), "Hello, world");
    assert_eq!(chat.status().status_message, "Processing...");
    chat.handle_event(TuiEvent::AgentToolDone { name: "read".to_string() });
    chat.handle_event(TuiEvent::AgentResponseComplete);
    assert_eq!(chat.current_response(), "");
    assert_eq!(chat.current_reasoning(), "");
    assert_eq!(chat.messages().len(), 3);
    assert!(matches!(&chat.messages()[0], ChatMessage::ToolCall { status: ToolStatus::Done, .. }));
    assert!(matches!(&chat.messages()[1], ChatMessage::Thinking { content, expanded: false } if content == "think"));
    assert!(matches!(&chat.messages()[2], ChatMessage::Assistant { content } if content == "Hello, world"));
    assert_eq!(chat.status().status_message, "Ready");
    assert_eq!(chat.input_status().status(), InputStatus::Sent);
}

#[test]
fn chat_error_keeps_stream_and_reports() {
    let mut chat = ChatLog::new();
    chat.handle_event(text_event("partial"));
    chat.handle_event(TuiEvent::AgentError("boom".to_string()));
    assert_eq!(chat.messages().len(), 2);
    assert!(matches!(&chat.messages()[1], ChatMessage::System { content } if content == "❌ 错误: boom"));
    assert_eq!(chat.status().status_message, "Error");
    assert!(!chat.status().is_streaming);
}

#[test]
fn chat_toggle_twice_restores() {
    let mut chat = ChatLog::new();
    chat.handle_event(TuiEvent::AgentReasoning("why".to_string()));
    chat.handle_event(TuiEvent::AgentResponseComplete);
    chat.toggle_last_thinking();
    assert!(matches!(&chat.messages()[0], ChatMessage::Thinking { expanded: true, .. }));
    chat.toggle_last_thinking();
    assert!(matches!(&chat.messages()[0], ChatMessage::Thinking { expanded: false, .. }));
}

#[test]
fn chat_begin_send_trims_and_ignores_blank() {
    let mut chat = ChatLog::new();
    assert_eq!(chat.begin_send("   \n "), None);
    assert_eq!(chat.messages().len(), 0);
    assert_eq!(chat.begin_send("  hi there \n"), Some("hi there".to_string()));
    assert!(matches!(&chat.messages()[0], ChatMessage::User { content } if content == "hi there"));
    assert_eq!(chat.input_status().status(), InputStatus::Sending);
    assert!(chat.status().is_streaming);
}

#[test]
fn keys_quit_toggle_and_forward() {
    let mut state = TuiState::new();
    assert_eq!(state.key_effect(key(KeyCode::Esc), true, true), KeyEffect::CancelAutocomplete);
    assert_eq!(state.key_effect(key(KeyCode::Char('x')), false, false), KeyEffect::ClearSelectionToInput);
    assert_eq!(state.key_effect(key(KeyCode::Up), false, true), KeyEffect::ToInput);
    assert_eq!(state.key_effect(key(KeyCode::Up), false, false), KeyEffect::Ignore);
    assert_eq!(
        state.key_effect(KeyInput { code: KeyCode::Char('t'), control: true, shift: false }, false, false),
        KeyEffect::ToggleThinking
    );
    let e = state.key_effect(key(KeyCode::F(12)), false, false);
    assert!(!state.apply_key_effect(e));
    assert!(state.show_debug_panel());
    assert_eq!(state.key_effect(key(KeyCode::PageUp), false, false), KeyEffect::DebugPageUp);
    let e = state.key_effect(key(KeyCode::Char('q')), false, false);
    state.apply_key_effect(e);
    assert!(state.should_exit());
}

#[test]
fn mouse_scroll_select_and_copy() {
    let mut state = TuiState::new();
    let conv = Rect { x: 0, y: 3, width: 40, height: 10 };
    state.set_drawn(ScreenAreas { conversation: conv, debug: None }, 5, 0);
    state.handle_mouse(MouseInput { kind: MouseKind::ScrollDown, column: 5, row: 5 });
    assert_eq!(state.conversation_scroll(), 1);
    state.handle_mouse(MouseInput { kind: MouseKind::ScrollUp, column: 5, row: 5 });
    state.handle_mouse(MouseInput { kind: MouseKind::ScrollUp, column: 5, row: 5 });
    assert_eq!(state.conversation_scroll(), 0);
    state.handle_mouse(MouseInput { kind: MouseKind::LeftDown, column: 3, row: 4 });
    let sel = state.selection().unwrap();
    assert_eq!((sel.start.line, sel.start.column), (0, 2));
    assert_eq!(sel.target, SelectionTarget::Conversation);
    state.handle_mouse(MouseInput { kind: MouseKind::LeftDrag, column: 7, row: 5 });
    let out = state.handle_mouse(MouseInput { kind: MouseKind::LeftUp, column: 7, row: 5 });
    assert_eq!(out, MouseOutcome::CopySelection);
    let sel = state.selection().unwrap();
    assert!(!sel.dragging);
    assert_eq!((sel.end.line, sel.end.column), (1, 6));
    let out = state.handle_mouse(MouseInput { kind: MouseKind::LeftUp, column: 7, row: 5 });
    assert_eq!(out, MouseOutcome::Nothing);
}

#[test]
fn click_on_conversation_toggles_thinking() {
    let mut state = TuiState::new();
    state.handle_tui_event(TuiEvent::AgentReasoning("plan".to_string()));
    state.handle_tui_event(TuiEvent::AgentResponseComplete);
    let conv = Rect { x: 0, y: 0, width: 40, height: 10 };
    state.set_drawn(ScreenAreas { conversation: conv, debug: None }, 3, 0);
    state.handle_mouse(MouseInput { kind: MouseKind::LeftDown, column: 2, row: 2 });
    assert!(state.selection().is_none());
    assert!(matches!(&state.chat().messages()[0], ChatMessage::Thinking { expanded: true, .. }));
}

#[test]
fn wrap_text_cases() {
    assert_eq!(wrap_text("", 80), vec![String::new()]);
    assert_eq!(wrap_text("some words here", 15), vec!["some words here".to_string()]);
    assert_eq!(wrap_text("aaaa bbbb cccc dddd", 18), vec!["aaaa bbbb".to_string(), "cccc dddd".to_string()]);
}

#[test]
fn conversation_panel_lines() {
    let messages = vec![
        ChatMessage::User { content: "hello".to_string() },
        ChatMessage::ToolCall { name: "read".to_string(), status: ToolStatus::Running },
        ChatMessage::Assistant { content: "hi".to_string() },
    ];
    let md = vec![
        vec![],
        vec![],
        vec![vec![Span {
            content: "hi".to_string(),
            style: coding_agent::ui::tui::styled::Style { fg: Some(Color::White), bg: None, bold: false, dim: false },
        }]],
    ];
    let lines = conversation_lines(&messages, &md, 0, 44, "", "stream");
    assert_eq!(
        texts(&lines),
        vec![
            "You: hello".to_string(),
            "─".repeat(40),
            String::new(),
            "Agent: ".to_string(),
            "       hi".to_string(),
            "Agent: stream▌".to_string(),
        ]
    );
    let copy = copy_lines(&messages, &md, 0, 44, "", "");
    let copied: Vec<String> = copy.iter().map(|l| l.concat()).collect();
    assert_eq!(copied, vec!["You: hello", "┌─ ⏳ read", "Agent: ", "       hi"]);
    let state = {
        let mut s = coding_agent::ui::tui::selection::TextSelection::new(
            coding_agent::ui::tui::selection::TextPosition { line: 0, column: 5 },
            SelectionTarget::Conversation,
        );
        s.update_end(coding_agent::ui::tui::selection::TextPosition { line: 0, column: 10 });
        s
    };
    assert_eq!(extract_selected_text(&copy, &state), "hello");
}

#[test]
fn status_and_title_lines() {
    let mut bar = StatusBar::new();
    let l = bar.status_line(None);
    assert_eq!(line_text(&l), "💡 Enter:发送 滚轮/↑↓:滚动 点击/Ctrl+T:切换 ESC:退出 | Ready | Tools: 6 | Model: glm-4-flash");
    bar.set_streaming(true);
    assert!(line_text(&bar.status_line(None)).starts_with("⏳ "));
    assert_eq!(line_text(&bar.status_line(Some("已复制 3 字"))), "📋 已复制 3 字");
    assert_eq!(line_text(&bar.title_line()), "🤖 CodingAgent v1.0 | Session: default");
    assert_eq!(copy_notice_text(CopyResult::Copied(12)), "已复制 12 字");
    assert_eq!(copy_notice_text(CopyResult::Unavailable), "剪贴板不可用");
}

#[test]
fn input_normal_and_popup_actions() {
    assert_eq!(normal_key_action(key(KeyCode::Enter)), InputAction::Send);
    assert_eq!(
        normal_key_action(KeyInput { code: KeyCode::Enter, control: false, shift: true }),
        InputAction::InsertNewline
    );
    assert!(opens_popup("see ", '@'));
    assert!(!opens_popup("see @", '@'));
    assert!(!opens_popup("see", 'x'));
    assert_eq!(InputMode::Normal, InputMode::Normal);
    assert_eq!(
        autocomplete_action(key(KeyCode::Char('b')), "x @sr", Some(2)),
        AutocompleteAction::InsertAndFilter('b', "srb".to_string())
    );
    assert_eq!(autocomplete_action(key(KeyCode::Char(' ')), "x @sr", Some(2)), AutocompleteAction::InsertAndExit(' '));
    assert_eq!(autocomplete_action(key(KeyCode::Backspace), "x @", Some(2)), AutocompleteAction::DeleteAndExit);
    assert_eq!(
        autocomplete_action(key(KeyCode::Backspace), "x @src/ui//", Some(2)),
        AutocompleteAction::ParentDirectory(7)
    );
    assert_eq!(autocomplete_action(key(KeyCode::Backspace), "x @src", Some(2)), AutocompleteAction::DeleteAndFilter);
    assert_eq!(autocomplete_action(key(KeyCode::Left), "x @src", Some(2)), AutocompleteAction::ExitAndRehandle);
    assert_eq!(filter_after("x @sr", 2), "sr");
    assert_eq!(filter_after("x @", 2), "");
    assert_eq!(text_with_file("see @sr", 4, "src/lib.rs"), "see src/lib.rs");
    assert_eq!(directory_text("src"), "src/");
}

#[test]
fn popup_parent_directory_cleans_path() {
    let root = "/project";
    let sub = FileInfo {
        name: "src".to_string(),
        path: "/project/src".to_string(),
        is_dir: true,
        relative_path: "src".to_string(),
        depth: 1,
    };
    let mut ac = FileAutocomplete::new(root, vec![sub]);
    assert_eq!(ac.enter_directory(vec![]), Some("src".to_string()));
    assert_eq!(ac.input_prefix(), "src/");
    assert!(ac.parent_directory(None, vec![]));
    assert_eq!(ac.base_path(), "/project");
    assert_eq!(ac.input_prefix(), "src/");
    assert!(!ac.parent_directory(None, vec![]));
}

#[test]
fn layout_bands_and_popup() {
    let a = calculate_layout(Rect { x: 0, y: 0, width: 80, height: 24 });
    assert_eq!(a.title, Rect { x: 0, y: 0, width: 80, height: 3 });
    assert_eq!(a.conversation, Rect { x: 0, y: 3, width: 80, height: 16 });
    assert_eq!(a.input, Rect { x: 0, y: 19, width: 80, height: 3 });
    assert_eq!(a.input_status, Rect { x: 0, y: 22, width: 80, height: 1 });
    assert_eq!(a.status, Rect { x: 0, y: 23, width: 80, height: 1 });
    assert_eq!(a.popup, Some(Rect { x: 2, y: 8, width: 50, height: 10 }));
}

fn plain(text: &str) -> Span {
    Span { content: text.to_string(), style: Style::plain() }
}

fn highlighted(line: &[Span]) -> Vec<bool> {
    line.iter().map(|s| s.style.bg == Some(Color::Rgb(80, 80, 120))).collect()
}

#[test]
fn selection_highlight_marks_overlapping_spans() {
    let text = vec![vec![plain("hello "), plain("world")], vec![plain("abc")], vec![plain("xyz")]];
    let pos = |line, column| TextPosition { line, column };

    let mut t = text.clone();
    let sel = TextSelection { start: pos(0, 2), end: pos(0, 6), target: SelectionTarget::Conversation, dragging: false };
    apply_selection_highlight(&mut t, &sel);
    assert_eq!(highlighted(&t[0]), vec![true, true]);
    assert_eq!(highlighted(&t[1]), vec![false]);
    assert_eq!(t[0][1].content, "world");

    let mut t = text.clone();
    let sel = TextSelection { start: pos(0, 7), end: pos(0, 8), target: SelectionTarget::Conversation, dragging: false };
    apply_selection_highlight(&mut t, &sel);
    assert_eq!(highlighted(&t[0]), vec![false, true]);

    // Reversed ends, over two lines; the third line stays as it was.
    let mut t = text.clone();
    let sel = TextSelection { start: pos(1, 0), end: pos(0, 9), target: SelectionTarget::Conversation, dragging: false };
    apply_selection_highlight(&mut t, &sel);
    assert_eq!(highlighted(&t[0]), vec![false, true]);
    assert_eq!(highlighted(&t[1]), vec![true]);
    assert_eq!(highlighted(&t[2]), vec![false]);

    // Wide characters take two columns each.
    let mut t = vec![vec![plain("你好"), plain("x")]];
    let sel = TextSelection { start: pos(0, 4), end: pos(0, 5), target: SelectionTarget::Conversation, dragging: false };
    apply_selection_highlight(&mut t, &sel);
    assert_eq!(highlighted(&t[0]), vec![false, true]);

    // An empty selection shows nothing.
    let mut t = text.clone();
    let sel = TextSelection { start: pos(0, 3), end: pos(0, 3), target: SelectionTarget::Conversation, dragging: false };
    apply_selection_highlight(&mut t, &sel);
    assert_eq!(highlighted(&t[0]), vec![false, false]);
}

#[test]
fn test_render_simple_text() {
    let text = MarkdownRenderer::render("Hello world", 80);
    assert!(!text.is_empty());
}

#[test]
fn test_render_bold() {
    let text = MarkdownRenderer::render("**bold text**", 80);
    assert!(!text.is_empty());
}

#[test]
fn test_render_code_block() {
    let text = MarkdownRenderer::render("```rust\nfn main() {}\n```", 80);
    assert!(!text.is_empty());
}

#[test]
fn render_parses_headings_and_code() {
    let lines = MarkdownRenderer::render("# Title\n\n```rust\nfn main() {}\n```", 80);
    let texts: Vec<String> = lines.iter().map(|l| l.iter().map(|s| s.content.as_str()).collect::<String>()).collect();
    assert!(texts.iter().any(|t| t.contains("Title")));
    assert!(texts.iter().any(|t| t.contains("fn main() {}")));
}
