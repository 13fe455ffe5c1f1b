use coding_agent::tools::application::apply_patch_tool::ApplyPatchTool;
use coding_agent::tools::application::codesearch_tool::CodeSearchTool;
use coding_agent::tools::application::grep_tool::CompiledPattern;
use coding_agent::tools::application::websearch_tool::{endpoint_url, search_output, sse_payloads, WebSearchTool};
use coding_agent::tools::bash_tool::BashTool as ShellTool;
use coding_agent::tools::domain::doc_generator::{filter_tools_by_context, generate_tool_docs, generate_tool_summary};
use coding_agent::tools::domain::json_value::{JsonNumber, JsonValue};
use coding_agent::tools::domain::registry::{collect_registrations, DependencyType, ToolRegistration};
use coding_agent::tools::domain::tool_metadata::{DisclosurePolicy, ToolExample, ToolMetadata};
use coding_agent::tools::glob_tool::GlobTool;
use coding_agent::tools::grep_tool::GrepTool;
use coding_agent::tools::read_tool::ReadTool;
use coding_agent::tools::schema_fix::normalize_parameters;

fn s(v: &str) -> JsonValue {
    JsonValue::Str(v.to_string())
}

fn n(v: u64) -> JsonValue {
    JsonValue::Number(JsonNumber::PosInt(v))
}

fn obj(members: Vec<(&str, JsonValue)>) -> JsonValue {
    JsonValue::Object(members.into_iter().map(|(k, v)| (k.to_string(), v)).collect())
}

fn at<'a>(v: &'a JsonValue, key: &str) -> &'a JsonValue {
    v.get(key).unwrap()
}

fn create_test_registration(id: &str, priority: u8, disclosure: DisclosurePolicy) -> ToolRegistration {
    ToolRegistration::new(
        id,
        DependencyType::Custom,
        ToolMetadata {
            priority,
            disclosure,
            examples: vec![ToolExample {
                description: "Test example".to_string(),
                parameters: vec![("test".to_string(), s("value"))],
                outcome: "Test outcome".to_string(),
            }],
            related_tools: vec!["other".to_string()],
            tags: vec!["test".to_string()],
            prompt_hints: Some("Test hints".to_string()),
        },
    )
}

#[test]
fn test_generate_tool_docs() {
    let reg1 = create_test_registration("tool1", 1, DisclosurePolicy::Always);
    let reg2 = create_test_registration("tool2", 2, DisclosurePolicy::Always);
    let reg3 = create_test_registration("tool3", 5, DisclosurePolicy::Sequential { after: vec!["tool1".to_string()] });

    let docs = generate_tool_docs(&[reg1, reg2, reg3]);

    assert!(docs.contains("## Tool Usage Guidelines"));
    assert!(docs.contains("### Always Available"));
    assert!(docs.contains("#### TOOL1 Tool"));
    assert!(docs.contains("Test hints"));
    assert!(docs.contains("Test example"));
    assert!(docs.contains("### Contextually Available"));
    assert!(docs.contains("- **Disclosure**: Sequential { after: [\"tool1\"] }\n"));
}

#[test]
fn filter_tools_follows_disclosure_rules() {
    let regs = [
        create_test_registration("always", 1, DisclosurePolicy::Always),
        create_test_registration("sequential", 3, DisclosurePolicy::Sequential { after: vec!["always".to_string()] }),
        create_test_registration("priority", 10, DisclosurePolicy::Explicit),
    ];

    let filtered = filter_tools_by_context(&regs, &[], 5);
    assert_eq!(filtered.len(), 1);
    assert_eq!(filtered[0].id, "always");

    let filtered = filter_tools_by_context(&regs, &["always".to_string()], 5);
    assert_eq!(filtered.len(), 2);

    let filtered = filter_tools_by_context(&regs, &["always".to_string()], 10);
    assert_eq!(filtered.len(), 3);
}

#[test]
fn test_generate_tool_summary() {
    let reg1 = create_test_registration("low_priority", 1, DisclosurePolicy::Always);
    let reg2 = create_test_registration("high_priority", 10, DisclosurePolicy::Always);

    let summary = generate_tool_summary(&[reg2, reg1]);

    assert!(summary.contains("## Available Tools"));
    assert!(summary.find("low_priority").unwrap() < summary.find("high_priority").unwrap());
    assert!(summary.contains("**low_priority** (priority: 1): Test hints\n"));
}

#[test]
fn test_metadata_default() {
    let metadata = ToolMetadata::default();
    assert_eq!(metadata.priority, 5);
    assert!(matches!(metadata.disclosure, DisclosurePolicy::Always));
    assert!(metadata.examples.is_empty());
    assert!(metadata.related_tools.is_empty());
    assert!(metadata.tags.is_empty());
    assert!(metadata.prompt_hints.is_none());
}

#[test]
fn test_tool_example() {
    let example = ToolExample {
        description: "Read a file".to_string(),
        parameters: vec![("path".to_string(), s("src/main.rs"))],
        outcome: "Returns file contents".to_string(),
    };

    assert_eq!(example.description, "Read a file");
    assert_eq!(example.parameters.len(), 1);
    assert_eq!(example.outcome, "Returns file contents");
}

#[test]
fn test_collect_registrations_empty() {
    let registrations = collect_registrations();
    assert_eq!(registrations.len(), 0);
}

#[test]
fn test_already_valid_schema() {
    let params = obj(vec![("type", s("object")), ("properties", obj(vec![("name", obj(vec![("type", s("string"))]))]))]);
    let result = normalize_parameters(params);
    assert_eq!(at(&result, "type").as_str(), Some("object"));
    assert!(result.get("required").is_none());
}

#[test]
fn test_flat_schema_wrapped() {
    let params = obj(vec![
        ("command", obj(vec![("type", s("string")), ("description", s("Command to run"))])),
        ("timeout", obj(vec![("type", s("number")), ("default", n(30))])),
    ]);
    let result = normalize_parameters(params);
    assert_eq!(at(&result, "type").as_str(), Some("object"));
    assert!(matches!(at(at(&result, "properties"), "command"), JsonValue::Object(_)));
    assert!(matches!(at(at(&result, "properties"), "timeout"), JsonValue::Object(_)));
    let required = at(&result, "required").as_array().unwrap();
    assert_eq!(required.len(), 1);
    assert_eq!(required[0].as_str(), Some("command"));
}

#[test]
fn test_all_required() {
    let params = obj(vec![
        ("path", obj(vec![("type", s("string"))])),
        ("pattern", obj(vec![("type", s("string"))])),
    ]);
    let result = normalize_parameters(params);
    let required = at(&result, "required").as_array().unwrap();
    assert_eq!(required.len(), 2);
}

#[test]
fn test_empty_schema() {
    let params = obj(vec![]);
    let result = normalize_parameters(params);
    assert_eq!(at(&result, "type").as_str(), Some("object"));
    assert!(matches!(at(&result, "properties"), JsonValue::Object(m) if m.is_empty()));
    assert!(result.get("required").is_none());
}

#[test]
fn websearch_request_and_events() {
    let args = WebSearchTool::parse_args(&obj(vec![("query", s("rust")), ("numResults", n(300))])).unwrap();
    assert_eq!(args.num_results, 44);
    let body = WebSearchTool::request_body(&args);
    assert_eq!(at(&body, "method").as_str(), Some("tools/call"));
    let arguments = at(at(&body, "params"), "arguments");
    assert_eq!(at(arguments, "livecrawl").as_str(), Some("fallback"));
    assert_eq!(at(arguments, "type").as_str(), Some("auto"));
    assert!(matches!(at(arguments, "contextMaxCharacters"), JsonValue::Null));
    assert_eq!(endpoint_url(), "https://mcp.exa.ai/mcp");

    let payloads = sse_payloads("event: message\r\ndata: {\"x\":1}\r\ndata: second\n");
    assert_eq!(payloads, vec!["{\"x\":1}".to_string(), "second".to_string()]);

    let event = obj(vec![(
        "result",
        obj(vec![("content", JsonValue::Array(vec![obj(vec![("text", s("found it"))])]))]),
    )]);
    let parsed = vec![None, Some(obj(vec![("result", obj(vec![]))])), Some(event)];
    assert_eq!(search_output(&parsed, "none"), "found it");
    assert_eq!(search_output(&[], "none"), "none");
    let response = WebSearchTool::response(&args, "found it");
    assert!(response.contains("Web search: rust<summary>found it</summary>"));
}

#[test]
fn codesearch_request_and_response() {
    let args = CodeSearchTool::parse_args(&obj(vec![("query", s("tokio spawn"))])).unwrap();
    assert_eq!(args.tokens_num, 5000);
    assert_eq!(
        CodeSearchTool::parse_args(&obj(vec![("query", s("q")), ("tokensNum", n(60000))])).err(),
        Some("tokensNum must be between 1000 and 50000".to_string())
    );
    assert_eq!(CodeSearchTool::parse_args(&obj(vec![])).err(), Some("Missing 'query' argument".to_string()));
    let body = CodeSearchTool::request_body(&args);
    assert_eq!(at(at(&body, "params"), "name").as_str(), Some("get_code_context_exa"));
    assert_eq!(at(at(at(&body, "params"), "arguments"), "tokensNum").as_u64(), Some(5000));
    let doc = CodeSearchTool::response(&args, "snippets");
    assert_eq!(at(at(&doc, "data"), "results").as_str(), Some("snippets"));
    assert_eq!(at(&doc, "tool").as_str(), Some("codesearch"));
}

#[test]
fn apply_patch_answers() {
    let r = ApplyPatchTool::response(3);
    assert!(r.contains("Found 3 hunks."));
    assert!(r.contains("<summary>Patch parsed successfully."));
    assert_eq!(ApplyPatchTool::parse_failed("bad"), "Failed to parse patch: bad");
    assert_eq!(
        ApplyPatchTool::parse_args(&obj(vec![])).err(),
        Some("Missing 'patch_text' argument".to_string())
    );
}

#[test]
fn shell_report_and_truncation() {
    assert_eq!(ShellTool::format_output("", "", Some(0)), "(Command produced no output)\n\nExit code: Some(0)\n");
    assert_eq!(ShellTool::format_output("out", "err", Some(-1)), "STDOUT:\nout\nSTDERR:\nerr\nExit code: Some(-1)\n");
    assert_eq!(ShellTool::format_output("", "err", None), "STDERR:\nerr\nExit code: None\n");
    assert_eq!(ShellTool::timeout_ms(None), 30000);
    assert_eq!(ShellTool::timed_out(500), "Command timed out after 500ms");
    let small = "abc";
    assert_eq!(coding_agent::tools::bash_tool::truncate_output(small), "abc");
}

#[test]
fn legacy_read_numbers_lines() {
    assert_eq!(ReadTool::format_lines("a\nb\nc\n", Some(1), Some(1)), "       2\tb\n");
    assert_eq!(ReadTool::format_lines("a\nb", None, None), "       1\ta\n       2\tb\n");
    assert_eq!(ReadTool::format_lines("a", Some(5), None), "");
    let many: String = (0..2001).map(|i| format!("l{}\n", i)).collect();
    let out = ReadTool::format_lines(&many, None, None);
    assert!(out.ends_with("\n--- File truncated at line 2001 (use offset/limit to read more) ---\n"));
    assert_eq!(ReadTool::not_found("x"), "File not found: x");
}

#[test]
fn legacy_glob_orders_newest_first() {
    assert_eq!(GlobTool::full_pattern("*.rs", None), "./*.rs");
    assert_eq!(GlobTool::full_pattern("./x/*.rs", Some("src")), "./x/*.rs");
    assert_eq!(GlobTool::full_pattern("*.rs", Some("src")), "src/*.rs");
    let found = vec![
        ("./a.rs".to_string(), 10u128),
        ("./b.rs".to_string(), 30u128),
        ("c.rs".to_string(), 20u128),
        ("./d.rs".to_string(), 30u128),
    ];
    assert_eq!(GlobTool::newest_first(found), vec!["b.rs", "d.rs", "c.rs", "a.rs"]);
    let report = GlobTool::format_result("*.rs", &vec!["a.rs".to_string()]);
    assert_eq!(report, "Found 1 file(s) matching '*.rs':\n  a.rs\n");
    assert_eq!(GlobTool::format_result("*.x", &vec![]), "No files found matching pattern: *.x");
}

#[test]
fn legacy_grep_reports_matches() {
    let pattern = CompiledPattern::compile("fn \\w+").unwrap();
    let matches = GrepTool::search_text(&pattern, "src/lib.rs", "use x;\nfn main() {}\nlet y;\nfn other() {}\n");
    assert_eq!(matches.len(), 2);
    assert_eq!(matches[0].line_number, 2);
    assert_eq!(matches[1].line_content, "fn other() {}");
    let report = GrepTool::format_result("fn \\w+", &matches);
    assert_eq!(
        report,
        "Found 2 match(es) for pattern 'fn \\w+':\nsrc/lib.rs:2: fn main() {}\nsrc/lib.rs:4: fn other() {}\n"
    );
    assert_eq!(GrepTool::format_result("zzz", &vec![]), "No matches found for pattern: zzz");
}
