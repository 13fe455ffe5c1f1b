use coding_agent::tools::application::apply_patch_tool::ApplyPatchTool;
use coding_agent::tools::application::bash_tool::BashTool;
use coding_agent::tools::application::batch_tool::BatchTool;
use coding_agent::tools::application::codesearch_tool::CodeSearchTool;
use coding_agent::tools::application::edit_tool::EditTool;
use coding_agent::tools::application::glob_tool::GlobTool;
use coding_agent::tools::application::grep_tool::GrepTool;
use coding_agent::tools::application::head_tail_tool::HeadTailTool;
use coding_agent::tools::application::list_tool::ListTool;
use coding_agent::tools::application::read_tool::ReadTool;
use coding_agent::tools::application::stat_tool::StatTool;
use coding_agent::tools::application::todo_tool::{TodoStatus, TodoWriteTool};
use coding_agent::tools::application::webfetch_tool::WebFetchTool;
use coding_agent::tools::application::websearch_tool::WebSearchTool;
use coding_agent::tools::application::write_tool::WriteTool;
use coding_agent::tools::domain::json_value::{JsonNumber, JsonValue};
use coding_agent::tools::domain::validation::{MAX_CONTENT_SIZE, MAX_LIMIT, MAX_OFFSET};
use std::time::Duration;

fn s(v: &str) -> JsonValue {
    JsonValue::Str(v.to_string())
}

fn n(v: u64) -> JsonValue {
    JsonValue::Number(JsonNumber::PosInt(v))
}

fn b(v: bool) -> JsonValue {
    JsonValue::Bool(v)
}

fn arr(items: Vec<JsonValue>) -> JsonValue {
    JsonValue::Array(items)
}

fn obj(members: Vec<(&str, JsonValue)>) -> JsonValue {
    JsonValue::Object(members.into_iter().map(|(k, v)| (k.to_string(), v)).collect())
}

#[test]
fn apply_patch_tool_test_parse_args_valid() {
    let args = obj(vec![("patch_text", s("--- a/file.txt\n+++ b/file.txt\n@@ -1 +1 @@\n-old\n+new"))]);
    let result = ApplyPatchTool::parse_args(&args).unwrap();
    assert!(result.contains("--- a/file.txt"));
}

#[test]
fn test_parse_hunk_header() {
    let tool = ApplyPatchTool::new(".".to_string());
    let result = tool.parse_hunk_header("@@ -1,3 +1,2 @@");
    assert!(result.is_ok());
}

#[test]
fn hunk_header_digits_of_other_scripts_match_but_do_not_parse() {
    let tool = ApplyPatchTool::new(".".to_string());
    assert_eq!(
        tool.parse_hunk_header("@@ -\u{661} +1 @@").unwrap_err(),
        "Invalid old_start"
    );
    assert_eq!(
        tool.parse_hunk_header("@@ -1 +\u{967} @@").unwrap_err(),
        "Invalid new_start"
    );
    let info = tool.parse_hunk_header("@@ -4,\u{662} +5,6 @@").unwrap();
    assert_eq!((info.old_start, info.old_count, info.new_start, info.new_count), (4, 1, 5, 6));
    assert_eq!(
        tool.parse_hunk_header("@@ -a +1 @@").unwrap_err(),
        "Invalid hunk header format"
    );
}

#[test]
fn bash_tool_test_parse_args() {
    let args = obj(vec![("command", s("ls"))]);
    let parsed = BashTool::parse_args(&args).unwrap();
    assert_eq!(parsed.command, "ls");
    assert!(parsed.args.is_empty());
    assert!(parsed.working_dir.is_none());
    assert!(parsed.timeout.is_none());

    let args = obj(vec![
        ("command", s("git")),
        ("args", arr(vec![s("status")])),
        ("working_dir", s("/tmp")),
        ("timeout", n(30)),
    ]);
    let parsed = BashTool::parse_args(&args).unwrap();
    assert_eq!(parsed.command, "git");
    assert_eq!(parsed.args, vec!["status"]);
    assert_eq!(parsed.working_dir, Some("/tmp".to_string()));
    assert_eq!(parsed.timeout_duration(), Some(Duration::from_secs(30)));
}

#[test]
fn test_parse_args_empty_command() {
    let args = obj(vec![("command", s(""))]);
    assert!(BashTool::parse_args(&args).is_err());

    let args = obj(vec![("command", s("   "))]);
    assert!(BashTool::parse_args(&args).is_err());
}

#[test]
fn test_parse_args_command_injection() {
    let args = obj(vec![("command", s("ls && rm -rf /"))]);
    assert!(BashTool::parse_args(&args).is_err());

    let args = obj(vec![("command", s("cat /etc/passwd; echo done"))]);
    assert!(BashTool::parse_args(&args).is_err());

    let args = obj(vec![("command", s("echo $(whoami)"))]);
    assert!(BashTool::parse_args(&args).is_err());

    let args = obj(vec![("command", s("ls `whoami`"))]);
    assert!(BashTool::parse_args(&args).is_err());

    let args = obj(vec![("command", s("ls > /tmp/output"))]);
    assert!(BashTool::parse_args(&args).is_err());
}

#[test]
fn bash_tool_test_parse_args_path_traversal() {
    let args = obj(vec![("command", s("ls")), ("working_dir", s("../../etc"))]);
    assert!(BashTool::parse_args(&args).is_err());

    let args = obj(vec![("command", s("ls")), ("working_dir", s("/tmp/../etc"))]);
    assert!(BashTool::parse_args(&args).is_err());
}

#[test]
fn test_parse_args_timeout_validation() {
    let args = obj(vec![("command", s("ls")), ("timeout", n(0))]);
    assert!(BashTool::parse_args(&args).is_err());

    let args = obj(vec![("command", s("ls")), ("timeout", n(700))]);
    assert!(BashTool::parse_args(&args).is_err());

    let args = obj(vec![("command", s("ls")), ("timeout", n(30))]);
    assert!(BashTool::parse_args(&args).is_ok());
}

#[test]
fn test_parse_args_dangerous_arguments() {
    let args = obj(vec![("command", s("echo")), ("args", arr(vec![s("$(whoami)")]))]);
    assert!(BashTool::parse_args(&args).is_err());

    let args = obj(vec![("command", s("echo")), ("args", arr(vec![s("test;rm -rf /")]))]);
    assert!(BashTool::parse_args(&args).is_err());
}

#[test]
fn test_parse_args_valid_complex_commands() {
    let args = obj(vec![("command", s("cargo")), ("args", arr(vec![s("build"), s("--release")]))]);
    assert!(BashTool::parse_args(&args).is_ok());

    let args = obj(vec![("command", s("/usr/bin/git")), ("args", arr(vec![s("status")]))]);
    assert!(BashTool::parse_args(&args).is_ok());
}

#[test]
fn batch_tool_test_parse_args_valid() {
    let args = obj(vec![(
        "tool_calls",
        arr(vec![
            obj(vec![("tool", s("read")), ("parameters", obj(vec![("file_path", s("test.txt"))]))]),
            obj(vec![
                ("tool", s("write")),
                ("parameters", obj(vec![("file_path", s("out.txt")), ("content", s("hello"))])),
            ]),
        ]),
    )]);
    let result = BatchTool::parse_args(&args).unwrap();
    assert_eq!(result.len(), 2);
    assert_eq!(result[0].tool, "read");
    assert_eq!(result[1].tool, "write");
}

#[test]
fn test_parse_args_empty() {
    let args = obj(vec![("tool_calls", arr(vec![]))]);
    let result = BatchTool::parse_args(&args);
    assert!(result.is_err());
}

#[test]
fn test_parse_args_missing() {
    let args = obj(vec![]);
    let result = BatchTool::parse_args(&args);
    assert!(result.is_err());
}

#[test]
fn codesearch_tool_test_parse_args_valid() {
    let args = obj(vec![("query", s("React useState"))]);
    let result = CodeSearchTool::parse_args(&args).unwrap();
    assert_eq!(result.query, "React useState");
}

#[test]
fn test_parse_args_invalid_tokens() {
    let args = obj(vec![("query", s("React useState")), ("tokensNum", n(500))]);
    let result = CodeSearchTool::parse_args(&args);
    assert!(result.is_err());
}

#[test]
fn edit_tool_test_parse_args() {
    let args = obj(vec![("path", s("/tmp/test.txt")), ("old_string", s("hello")), ("new_string", s("world"))]);
    let parsed = EditTool::parse_args(&args).unwrap();
    assert_eq!(parsed.path, "/tmp/test.txt");
    assert_eq!(parsed.old_string, "hello");
    assert_eq!(parsed.new_string, "world");
    assert!(!parsed.replace_all);

    let args = obj(vec![
        ("path", s("/tmp/test.txt")),
        ("old_string", s("foo")),
        ("new_string", s("bar")),
        ("replace_all", b(true)),
    ]);
    let parsed = EditTool::parse_args(&args).unwrap();
    assert!(parsed.replace_all);
}

#[test]
fn glob_tool_test_parse_args() {
    let args = obj(vec![("pattern", s("*.txt"))]);
    let parsed = GlobTool::parse_args(&args).unwrap();
    assert_eq!(parsed.pattern, "*.txt");
    assert_eq!(parsed.path, ".");

    let args = obj(vec![("pattern", s("*.rs")), ("path", s("src"))]);
    let parsed = GlobTool::parse_args(&args).unwrap();
    assert_eq!(parsed.pattern, "*.rs");
    assert_eq!(parsed.path, "src");
}

#[test]
fn glob_tool_test_parse_args_empty_pattern() {
    let args = obj(vec![("pattern", s(""))]);
    assert!(GlobTool::parse_args(&args).is_err());

    let args = obj(vec![("pattern", s("   "))]);
    assert!(GlobTool::parse_args(&args).is_err());
}

#[test]
fn glob_tool_test_parse_args_path_traversal() {
    let args = obj(vec![("pattern", s("*.txt")), ("path", s("../../etc"))]);
    assert!(GlobTool::parse_args(&args).is_err());
}

#[test]
fn test_parse_args_default_path_valid() {
    let args = obj(vec![("pattern", s("*.txt")), ("path", s("."))]);
    assert!(GlobTool::parse_args(&args).is_ok());
}

#[test]
fn glob_tool_test_parse_args_valid_patterns() {
    let args = obj(vec![("pattern", s("**/*.rs"))]);
    assert!(GlobTool::parse_args(&args).is_ok());

    let args = obj(vec![("pattern", s("src/**/test*.txt"))]);
    assert!(GlobTool::parse_args(&args).is_ok());
}

#[test]
fn grep_tool_test_parse_args() {
    let args = obj(vec![("pattern", s("TODO"))]);
    let parsed = GrepTool::parse_args(&args).unwrap();
    assert_eq!(parsed.pattern, "TODO");
    assert_eq!(parsed.path, ".");
    assert!(!parsed.recursive);
    assert!(!parsed.case_insensitive);

    let args = obj(vec![
        ("pattern", s("test")),
        ("path", s("src")),
        ("recursive", b(true)),
        ("case_insensitive", b(true)),
    ]);
    let parsed = GrepTool::parse_args(&args).unwrap();
    assert_eq!(parsed.pattern, "test");
    assert!(parsed.recursive);
    assert!(parsed.case_insensitive);
}

#[test]
fn grep_tool_test_parse_args_empty_pattern() {
    let args = obj(vec![("pattern", s(""))]);
    assert!(GrepTool::parse_args(&args).is_err());

    let args = obj(vec![("pattern", s("   "))]);
    assert!(GrepTool::parse_args(&args).is_err());
}

#[test]
fn test_parse_args_catastrophic_pattern() {
    let args = obj(vec![("pattern", s("a(*)"))]);
    assert!(GrepTool::parse_args(&args).is_err());

    let args = obj(vec![("pattern", s("a(+)"))]);
    assert!(GrepTool::parse_args(&args).is_err());

    let args = obj(vec![("pattern", s("a{100}"))]);
    assert!(GrepTool::parse_args(&args).is_err());
}

#[test]
fn grep_tool_test_parse_args_valid_patterns() {
    let args = obj(vec![("pattern", s("TODO"))]);
    assert!(GrepTool::parse_args(&args).is_ok());

    let args = obj(vec![("pattern", s("[A-Z]+"))]);
    assert!(GrepTool::parse_args(&args).is_ok());

    let args = obj(vec![("pattern", s("\\bword\\b"))]);
    assert!(GrepTool::parse_args(&args).is_ok());
}

#[test]
fn head_tail_tool_test_parse_args() {
    let args = obj(vec![("path", s("/tmp/test.txt"))]);
    let parsed = HeadTailTool::parse_args(&args).unwrap();
    assert_eq!(parsed.path, "/tmp/test.txt");
    assert_eq!(parsed.mode, "head");
    assert_eq!(parsed.lines, 10);

    let args = obj(vec![("path", s("/tmp/test.txt")), ("mode", s("tail")), ("lines", n(20))]);
    let parsed = HeadTailTool::parse_args(&args).unwrap();
    assert_eq!(parsed.mode, "tail");
    assert_eq!(parsed.lines, 20);
}

#[test]
fn list_tool_test_parse_args() {
    let args = obj(vec![]);
    let parsed = ListTool::parse_args(&args).unwrap();
    assert_eq!(parsed.path, ".");
    assert!(!parsed.show_hidden);

    let args = obj(vec![("path", s("/tmp")), ("show_hidden", b(true))]);
    let parsed = ListTool::parse_args(&args).unwrap();
    assert_eq!(parsed.path, "/tmp");
    assert!(parsed.show_hidden);
}

#[test]
fn read_tool_test_parse_args() {
    let args = obj(vec![("path", s("/tmp/test.txt"))]);
    let parsed = ReadTool::parse_args(&args).unwrap();
    assert_eq!(parsed.path, "/tmp/test.txt");
    assert!(parsed.offset.is_none());
    assert!(parsed.limit.is_none());

    let args = obj(vec![("path", s("/tmp/test.txt")), ("offset", n(10)), ("limit", n(20))]);
    let parsed = ReadTool::parse_args(&args).unwrap();
    assert_eq!(parsed.offset, Some(10));
    assert_eq!(parsed.limit, Some(20));
}

#[test]
fn test_parse_args_empty_path() {
    let args = obj(vec![("path", s(""))]);
    assert!(ReadTool::parse_args(&args).is_err());
}

#[test]
fn read_tool_test_parse_args_path_traversal() {
    let args = obj(vec![("path", s("../../etc/passwd"))]);
    assert!(ReadTool::parse_args(&args).is_err());
}

#[test]
fn test_parse_args_invalid_range() {
    let args = obj(vec![("path", s("/tmp/test.txt")), ("offset", n(MAX_OFFSET as u64 + 1))]);
    assert!(ReadTool::parse_args(&args).is_err());

    let args = obj(vec![("path", s("/tmp/test.txt")), ("limit", n(0))]);
    assert!(ReadTool::parse_args(&args).is_err());

    let args = obj(vec![("path", s("/tmp/test.txt")), ("limit", n(MAX_LIMIT as u64 + 1))]);
    assert!(ReadTool::parse_args(&args).is_err());
}

#[test]
fn test_parse_args_valid_range() {
    let args = obj(vec![("path", s("/tmp/test.txt")), ("offset", n(1000)), ("limit", n(50000))]);
    assert!(ReadTool::parse_args(&args).is_ok());
}

#[test]
fn stat_tool_test_parse_args() {
    let args = obj(vec![("path", s("/tmp/test.txt"))]);
    let parsed = StatTool::parse_args(&args).unwrap();
    assert_eq!(parsed.path, "/tmp/test.txt");
}

#[test]
fn todo_tool_test_parse_args_valid() {
    let args = obj(vec![(
        "todos",
        arr(vec![obj(vec![("content", s("Test task")), ("status", s("pending")), ("activeForm", s("Testing"))])]),
    )]);
    let result = TodoWriteTool::parse_args(&args).unwrap();
    assert_eq!(result.len(), 1);
    assert_eq!(result[0].content, "Test task");
    assert_eq!(result[0].status, TodoStatus::Pending);
    assert_eq!(result[0].active_form, "Testing");
}

#[test]
fn test_parse_args_missing_todos() {
    let args = obj(vec![]);
    let result = TodoWriteTool::parse_args(&args);
    assert!(result.is_err());
}

#[test]
fn test_parse_args_invalid_status() {
    let args = obj(vec![(
        "todos",
        arr(vec![obj(vec![("content", s("Test task")), ("status", s("invalid")), ("activeForm", s("Testing"))])]),
    )]);
    let result = TodoWriteTool::parse_args(&args);
    assert!(result.is_err());
}

#[test]
fn webfetch_tool_test_parse_args_valid() {
    let args = obj(vec![("url", s("https://example.com")), ("format", s("markdown"))]);
    let result = WebFetchTool::parse_args(&args).unwrap();
    assert_eq!(result.url, "https://example.com");
    assert_eq!(result.format, "markdown");
}

#[test]
fn test_parse_args_invalid_url() {
    let args = obj(vec![("url", s("not-a-url")), ("format", s("markdown"))]);
    let result = WebFetchTool::parse_args(&args);
    assert!(result.is_err());
}

#[test]
fn test_parse_args_invalid_format() {
    let args = obj(vec![("url", s("https://example.com")), ("format", s("invalid"))]);
    let result = WebFetchTool::parse_args(&args);
    assert!(result.is_err());
}

#[test]
fn websearch_tool_test_parse_args_valid() {
    let args = obj(vec![("query", s("Rust programming"))]);
    let result = WebSearchTool::parse_args(&args).unwrap();
    assert_eq!(result.query, "Rust programming");
}

#[test]
fn write_tool_test_parse_args() {
    let args = obj(vec![("path", s("/tmp/test.txt")), ("content", s("Hello, World!"))]);
    let parsed = WriteTool::parse_args(&args).unwrap();
    assert_eq!(parsed.path, "/tmp/test.txt");
    assert_eq!(parsed.content, "Hello, World!");
    assert!(parsed.create_dirs);
}

#[test]
fn test_parse_args_empty_content() {
    let args = obj(vec![("path", s("/tmp/test.txt")), ("content", s(""))]);
    assert!(WriteTool::parse_args(&args).is_err());
}

#[test]
fn test_parse_args_large_content() {
    let args = obj(vec![("path", s("/tmp/test.txt")), ("content", s(&"x".repeat(MAX_CONTENT_SIZE + 1)))]);
    assert!(WriteTool::parse_args(&args).is_err());
}

#[test]
fn test_parse_args_valid_path_traversal() {
    let args = obj(vec![("path", s("../../etc/passwd")), ("content", s("malicious"))]);
    assert!(WriteTool::parse_args(&args).is_ok());
}
