use coding_agent::tools::application::pdf_limits::{within_pdf_limits, MAX_PDF_OPENERS};
use coding_agent::tools::application::read_tool::ReadTool;
use coding_agent::tools::application::webfetch_tool::{within_html_limits, WebFetchArgs, WebFetchTool, MAX_MARKDOWN_TAGS};
use coding_agent::ui::tui::autocomplete::{FileAutocomplete, FileInfo};

/// A complete PDF holding one object with the given body.
fn pdf_with_object(body: &str, trailer_extra: &str) -> Vec<u8> {
    let mut out = String::from("%PDF-1.4\n");
    let obj_offset = out.len();
    out.push_str("1 0 obj\n");
    out.push_str(body);
    out.push_str("\nendobj\n");
    let xref_offset = out.len();
    out.push_str("xref\n0 2\n0000000000 65535 f \n");
    out.push_str(&format!("{:010} 00000 n \n", obj_offset));
    out.push_str(&format!("trailer\n<</Size 2{}>>\nstartxref\n{}\n%%EOF\n", trailer_extra, xref_offset));
    out.into_bytes()
}

#[test]
fn pdf_limits_accept_a_plain_document() {
    let pdf = pdf_with_object("<</Length 5>>", "");
    assert!(within_pdf_limits(&pdf));
    let (text, meta) = ReadTool::extract_pdf_text(&pdf).unwrap();
    assert_eq!(text, "[PDF Document with 0 pages - text extraction not fully implemented]");
    assert_eq!(meta.pages, Some(0));
    assert_eq!(meta.size, pdf.len());
}

#[test]
fn pdf_limits_refuse_a_cross_reference_chain() {
    let pdf = pdf_with_object("<<>>", " /Prev 9");
    assert!(!within_pdf_limits(&pdf));
    let escaped = pdf_with_object("<<>>", " /Pr#65v 9");
    assert!(!within_pdf_limits(&escaped));
    let err = ReadTool::extract_pdf_text(&pdf).unwrap_err();
    assert!(err.starts_with("Failed to parse PDF: the document's structure is outside what this reader accepts"));
}

#[test]
fn pdf_limits_refuse_indirect_lengths_object_streams_and_predictors() {
    assert!(!within_pdf_limits(&pdf_with_object("<</Length 1 0 R>>", "")));
    assert!(!within_pdf_limits(&pdf_with_object("<</Length\n% note\n1 0\nR>>", "")));
    assert!(within_pdf_limits(&pdf_with_object("<</Length 1 0>>", "")));
    assert!(within_pdf_limits(&pdf_with_object("<</Lengths 1 0 R>>", "")));
    assert!(!within_pdf_limits(&pdf_with_object("<</Type /ObjStm>>", "")));
    assert!(!within_pdf_limits(&pdf_with_object("<</DecodeParms <</Predictor 12>>>>", "")));
}

#[test]
fn pdf_limits_refuse_large_numbers_and_deep_nesting() {
    assert!(!within_pdf_limits(&pdf_with_object("<</Size 99999999>>", "")));
    assert!(within_pdf_limits(&pdf_with_object("<</Size 000000000000012>>", "")));
    let too_deep = "[".repeat(MAX_PDF_OPENERS) + &"]".repeat(MAX_PDF_OPENERS);
    assert!(!within_pdf_limits(&pdf_with_object(&too_deep, "")));
}

#[test]
fn pdf_nesting_at_the_limit_loads() {
    let depth = MAX_PDF_OPENERS - 2;
    let body = "[".repeat(depth) + &"(".repeat(100) + &")".repeat(100) + &"]".repeat(depth);
    let pdf = pdf_with_object(&body, "");
    assert!(within_pdf_limits(&pdf));
    assert!(ReadTool::extract_pdf_text(&pdf).is_ok());
}

#[test]
fn html_limits_count_markup() {
    assert!(within_html_limits(&"<b>".repeat(MAX_MARKDOWN_TAGS)));
    assert!(!within_html_limits(&"<b>".repeat(MAX_MARKDOWN_TAGS + 1)));
    assert!(within_html_limits("no markup at all"));
}

#[test]
fn markdown_for_small_html_and_text_for_large() {
    let args = WebFetchArgs { url: "https://example.com".to_string(), format: "markdown".to_string(), timeout_secs: 30 };
    let small = "<h1>Title</h1>Body";
    let out = WebFetchTool::output(&args, "text/html", small.as_bytes());
    assert!(out.contains("Title"));
    assert_ne!(out, WebFetchTool::extract_text_from_html(small));
    let large = "<p>word</p>".repeat(MAX_MARKDOWN_TAGS);
    assert!(!within_html_limits(&large));
    let out = WebFetchTool::output(&args, "text/html", large.as_bytes());
    assert_eq!(out, WebFetchTool::extract_text_from_html(&large));
    assert!(!out.contains('<'));
}

#[test]
fn markdown_conversion_holds_trees_deeper_than_the_markup_limit_allows() {
    let depth = 2 * MAX_MARKDOWN_TAGS * MAX_MARKDOWN_TAGS + 36 * MAX_MARKDOWN_TAGS + 3;
    let html = "<div>".repeat(depth) + "deep";
    let out = html2md::parse_html(&html);
    assert!(out.contains("deep"));
}

fn walk_entry(relative_path: &str, depth: usize) -> FileInfo {
    FileInfo {
        name: relative_path.rsplit('/').next().unwrap().to_string(),
        path: format!("/work/{}", relative_path),
        is_dir: false,
        relative_path: relative_path.to_string(),
        depth,
    }
}

#[test]
fn filtered_search_keeps_depth_one_to_four() {
    let walk = vec![
        walk_entry("src", 1),
        walk_entry("a/b/c/src.rs", 4),
        walk_entry("a/b/c/d/src.rs", 5),
        walk_entry("src0", 0),
    ];
    let mut ac = FileAutocomplete::new("/work", Vec::new());
    ac.update_filter("src".to_string(), walk);
    let kept: Vec<String> = ac.suggestions().iter().map(|f| f.relative_path.clone()).collect();
    assert_eq!(kept, vec!["src".to_string(), "a/b/c/src.rs".to_string()]);
    assert!(ac.suggestions().iter().all(|f| 1 <= f.depth && f.depth <= 4));
}

