use coding_agent::tools::edit_tool::{try_exact_match, try_trim_match};
use coding_agent::tools::{truncate_output, MAX_LINES, MAX_OUTPUT_SIZE};

#[test]
fn test_truncate_empty() {
    let result = truncate_output("");
    assert_eq!(result, "");
}

#[test]
fn test_truncate_small() {
    let content = "Hello\nWorld\n";
    let result = truncate_output(content);
    assert_eq!(result, content);
}

#[test]
fn test_truncate_by_lines() {
    let mut content = String::new();
    for i in 0..(MAX_LINES + 100) {
        content.push_str(&format!("Line {}\n", i));
    }

    let result = truncate_output(&content);
    assert!(result.contains("Output truncated"));
    assert!(result.contains("offset/limit"));
}

#[test]
fn test_truncate_by_size() {
    let mut content = String::new();
    for _ in 0..(MAX_OUTPUT_SIZE + 1000) {
        content.push('x');
    }

    let result = truncate_output(&content);
    assert!(result.contains("Output truncated"));
    assert!(result.contains("offset/limit"));
}

#[test]
fn test_exact_match() {
    let content = "fn hello() {\n    println!(\"hello\");\n}";
    let old = "    println!(\"hello\");";
    let new = "    println!(\"world\");";

    let result = try_exact_match(content, old, new, false);
    assert!(result.is_some());
    assert!(result.unwrap().content.contains("world"));
}

#[test]
fn test_trim_match() {
    let content = "fn hello() {\n    println!(\"hello\");\n}";
    let old = "println!(\"hello\");";
    let new = "println!(\"world\");";

    let result = try_trim_match(content, old, new, false);
    assert!(result.is_some());
    assert!(result.unwrap().content.contains("println!(\"world\");"));
}

#[test]
fn test_truncate_output() {
    let large_content = "x".repeat(coding_agent::tools::bash_tool::MAX_OUTPUT_SIZE + 1000);
    let truncated = coding_agent::tools::bash_tool::truncate_output(&large_content);
    assert!(truncated.len() < large_content.len());
    assert!(truncated.contains("truncated"));
}

#[test]
fn normalized_match_replaces_span_equal_up_to_whitespace() {
    let r = coding_agent::tools::edit_tool::try_normalized_match("a  b", "a b", "X", false).unwrap();
    assert_eq!(r.content, "X");
    assert_eq!(r.count, 1);
    let r = coding_agent::tools::edit_tool::try_normalized_match("x a\n\tb y a b", " a   b ", "Z", false).unwrap();
    assert_eq!(r.content, "x Z y a b");
    assert!(coding_agent::tools::edit_tool::try_normalized_match("ab", "a b", "X", false).is_none());
    assert!(coding_agent::tools::edit_tool::try_normalized_match("a c", "a b", "X", false).is_none());
    let r = coding_agent::tools::edit_tool::replace_in_content("fn  f( x )", "fn f( x )", "g", false).unwrap();
    assert_eq!(r.content, "g");
}
