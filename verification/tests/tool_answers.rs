use coding_agent::tools::application::edit_tool::EditTool;
use coding_agent::tools::application::read_tool::{ReadArgs, ReadStep, ReadTool};
use coding_agent::tools::application::responses;
use coding_agent::tools::application::webfetch_tool::{WebFetchTool, MAX_RESPONSE_SIZE};
use coding_agent::tools::application::write_tool::WriteTool;
use coding_agent::tools::domain::file_type::FileCategory;
use coding_agent::tools::domain::json_value::JsonValue;

fn at<'a>(v: &'a JsonValue, key: &str) -> &'a JsonValue {
    v.get(key).unwrap()
}

fn text_at<'a>(v: &'a JsonValue, key: &str) -> &'a str {
    at(v, key).as_str().unwrap()
}

fn args(path: &str) -> ReadArgs {
    ReadArgs { path: path.to_string(), offset: None, limit: None }
}

fn error_code(doc: &JsonValue) -> &str {
    text_at(at(doc, "error"), "code")
}

#[test]
fn read_plan_answers_missing_paths_and_routes_files() {
    let a = args("notes.md");
    match ReadTool::plan(&a, false, false) {
        ReadStep::Answer(doc) => {
            assert_eq!(text_at(&doc, "status"), "error");
            assert_eq!(text_at(&doc, "tool"), "read");
            assert_eq!(error_code(&doc), "FILE_NOT_FOUND");
            assert_eq!(text_at(at(&doc, "error"), "message"), "File not found: notes.md");
            assert_eq!(text_at(at(&doc, "error"), "details"), "The file 'notes.md' does not exist");
        }
        other => panic!("unexpected step {:?}", other),
    }
    match ReadTool::plan(&a, true, false) {
        ReadStep::Answer(doc) => {
            assert_eq!(error_code(&doc), "NOT_A_FILE");
            assert_eq!(text_at(at(&doc, "error"), "message"), "Not a file: notes.md");
        }
        other => panic!("unexpected step {:?}", other),
    }
    for path in ["notes.md", "data.json", "main.rs", "README", "page.HTML"] {
        assert!(matches!(ReadTool::plan(&args(path), true, true), ReadStep::ReadText), "{}", path);
    }
    assert!(matches!(ReadTool::plan(&args("doc.PDF"), true, true), ReadStep::ReadBinary(FileCategory::Pdf)));
    assert!(matches!(ReadTool::plan(&args("a/b.png"), true, true), ReadStep::ReadBinary(FileCategory::Image)));
    assert!(matches!(ReadTool::plan(&args("x.zip"), true, true), ReadStep::ReadBinary(FileCategory::Binary)));
}

#[test]
fn read_text_response_selects_lines_and_counts_them() {
    let a = ReadArgs { path: "f.txt".to_string(), offset: Some(1), limit: Some(2) };
    let doc = ReadTool::text_response(&a, "one\ntwo\nthree\nfour\n");
    assert_eq!(text_at(&doc, "status"), "success");
    let data = at(&doc, "data");
    assert_eq!(text_at(data, "path"), "f.txt");
    assert_eq!(text_at(data, "content"), "two\nthree");
    assert_eq!(at(data, "total_lines").as_u64(), Some(4));
    assert_eq!(at(data, "lines_read").as_u64(), Some(2));
    assert_eq!(at(data, "size").as_u64(), Some(9));
}

#[test]
fn read_binary_answers_encode_small_files_and_preview_large_ones() {
    let small = ReadTool::binary_answer(&args("x.bin"), FileCategory::Binary, b"Man");
    let data = at(&small, "data");
    assert_eq!(text_at(data, "type"), "binary");
    assert_eq!(text_at(data, "encoding"), "base64");
    assert_eq!(text_at(data, "content_base64"), "TWFu");
    assert_eq!(at(data, "size").as_u64(), Some(3));

    let padded = ReadTool::binary_answer(&args("x.bin"), FileCategory::Binary, b"Ma");
    assert_eq!(text_at(at(&padded, "data"), "content_base64"), "TWE=");

    let mut big = vec![0xABu8, 0x01, 0xFF];
    big.resize(1024 * 1024 + 1, 0);
    let doc = ReadTool::binary_answer(&args("big.bin"), FileCategory::Binary, &big);
    assert_eq!(error_code(&doc), "FILE_TOO_LARGE_FOR_BASE64");
    assert_eq!(text_at(at(&doc, "error"), "message"), "Binary file too large for base64 encoding: big.bin");
    let details = text_at(at(&doc, "error"), "details");
    assert!(details.contains("Size: 1048577 bytes"));
    assert!(details.contains("Preview: AB 01 FF 00"));
}

#[test]
fn read_image_answer_reads_png_header() {
    let mut png = vec![0x89, b'P', b'N', b'G', 0x0D, 0x0A, 0x1A, 0x0A, 0, 0, 0, 13, b'I', b'H', b'D', b'R'];
    png.extend_from_slice(&[0, 0, 1, 0]);
    png.extend_from_slice(&[0, 0, 0, 32]);
    png.extend_from_slice(&[8, 6]);
    let doc = ReadTool::binary_answer(&args("pic.png"), FileCategory::Image, &png);
    let data = at(&doc, "data");
    assert_eq!(text_at(data, "type"), "image");
    let meta = at(data, "metadata");
    assert_eq!(text_at(meta, "format"), "png");
    assert_eq!(at(meta, "width").as_u64(), Some(256));
    assert_eq!(at(meta, "height").as_u64(), Some(32));
    assert_eq!(text_at(meta, "color_type"), "RGBA");
    assert_eq!(at(meta, "size").as_u64(), Some(26));
}

#[test]
fn read_pdf_answer_reports_parse_failure() {
    let doc = ReadTool::binary_answer(&args("broken.pdf"), FileCategory::Pdf, b"not a pdf");
    let data = at(&doc, "data");
    assert_eq!(text_at(data, "type"), "pdf");
    assert!(text_at(data, "content").starts_with("[Error extracting PDF text: Failed to parse PDF: "));
    assert_eq!(text_at(data, "content_base64"), "bm90IGEgcGRm");
}

#[test]
fn edit_and_write_error_answers() {
    let missing = EditTool::file_not_found("a.txt");
    assert!(missing.contains("FILE_NOT_FOUND"));
    assert!(missing.contains("File not found: a.txt"));
    assert!(missing.contains("The file &apos;a.txt&apos; does not exist"));
    let dir = EditTool::not_a_file("src");
    assert!(dir.contains("NOT_A_FILE"));
    assert!(dir.contains("Not a file: src"));
    assert_eq!(WriteTool::write_failed("disk full"), "Failed to write file: disk full");
    let is_dir = WriteTool::is_directory("out");
    assert!(is_dir.contains("IS_DIRECTORY"));
    assert!(is_dir.contains("Cannot write to directory: out"));
}

#[test]
fn path_not_found_answer() {
    let doc = responses::path_not_found("grep", "nowhere");
    assert_eq!(text_at(&doc, "tool"), "grep");
    assert_eq!(error_code(&doc), "PATH_NOT_FOUND");
    assert_eq!(text_at(at(&doc, "error"), "message"), "Path not found: nowhere");
    assert_eq!(text_at(at(&doc, "error"), "details"), "The path 'nowhere' does not exist");
}

#[test]
fn webfetch_limits_and_messages() {
    assert_eq!(WebFetchTool::request_failed("timeout"), "Request failed: timeout");
    assert_eq!(WebFetchTool::read_failed("reset"), "Failed to read response: reset");
    assert!(!WebFetchTool::body_too_large(MAX_RESPONSE_SIZE));
    assert!(WebFetchTool::body_too_large(MAX_RESPONSE_SIZE + 1));
    assert_eq!(WebFetchTool::content_type_or_default(None), "text/plain");
    assert_eq!(WebFetchTool::content_type_or_default(Some("text/html")), "text/html");
    assert_eq!(WebFetchTool::too_large(), "Response too large (exceeds 5MB limit)");
}
