use coding_agent::model::{FileMetadata, FileType};
use coding_agent::tools::domain::error_handler::{
    build_error_xml, propagate_error, propagate_error_with_context, to_tool_error, to_tool_error_with_context,
    ErrorHandler, ToolError,
};
use coding_agent::tools::domain::file_operations::{FileOperationError, FileOperationPrechecker, FileOperationType};
use coding_agent::tools::domain::file_type::{FileCategory, FileTypeDetector};
use coding_agent::tools::domain::json_builder::JsonBuilder;
use coding_agent::tools::domain::json_value::JsonValue;
use coding_agent::tools::domain::permissions::PermissionStatus;
use coding_agent::tools::domain::registry::DependencyType;
use coding_agent::tools::domain::tool_metadata::DisclosurePolicy;
use coding_agent::tools::domain::validation::{
    validate_command, validate_content_size, validate_file_type_for_operation, validate_path, validate_read_range,
    validate_symlink_safe, validate_symlink_security, validate_timeout, FileOperationType as ValidationOperation,
    MAX_CONTENT_SIZE, MAX_OFFSET,
};
use coding_agent::tools::domain::xml_builder::{escape_xml, XmlBuilder};

fn at<'a>(v: &'a JsonValue, key: &str) -> &'a JsonValue {
    v.get(key).unwrap()
}

fn item(v: &JsonValue, i: usize) -> &JsonValue {
    &v.as_array().unwrap()[i]
}

fn text_of(v: &JsonValue) -> &str {
    v.as_str().unwrap()
}

fn number_of(v: &JsonValue) -> u64 {
    v.as_u64().unwrap()
}

fn sample_entry() -> FileMetadata {
    FileMetadata {
        name: "file.txt".to_string(),
        path: "/tmp/file.txt".to_string(),
        file_type: FileType::File,
        size: 1024,
        permissions: "rw-r--r--".to_string(),
        modified: "2024-01-01T00:00:00Z".to_string(),
        is_hidden: false,
        is_readable: true,
        is_writable: true,
    }
}

#[test]
fn test_to_tool_error() {
    let tool_error = to_tool_error("Test error".to_string());
    assert!(matches!(tool_error, ToolError::ExecutionFailed(_)));
    assert_eq!(tool_error.to_display(), "ExecutionFailed: Test error");
}

#[test]
fn test_to_tool_error_with_context() {
    let tool_error = to_tool_error_with_context("Test error".to_string(), "Reading file");
    assert!(matches!(tool_error, ToolError::ExecutionFailed(_)));
    assert!(tool_error.to_display().contains("Reading file"));
    assert!(tool_error.to_display().contains("Test error"));
}

#[test]
fn test_propagate_error_ok() {
    let result: Result<i32, String> = Ok(42);
    let converted = propagate_error(result);
    assert_eq!(converted.unwrap(), 42);
}

#[test]
fn test_propagate_error_err() {
    let result: Result<i32, String> = Err("Failed".to_string());
    let converted = propagate_error(result);
    assert!(converted.is_err());
    assert!(matches!(converted.unwrap_err(), ToolError::ExecutionFailed(_)));
}

#[test]
fn test_propagate_error_with_context_ok() {
    let result: Result<i32, String> = Ok(42);
    let converted = propagate_error_with_context(result, "Context");
    assert_eq!(converted.unwrap(), 42);
}

#[test]
fn test_propagate_error_with_context_err() {
    let result: Result<i32, String> = Err("Failed".to_string());
    let converted = propagate_error_with_context(result, "Opening file");
    let err = converted.unwrap_err();
    assert!(err.to_display().contains("Opening file"));
    assert!(err.to_display().contains("Failed"));
}

#[test]
fn test_build_error_xml() {
    let xml = build_error_xml("test_tool", "FILE_NOT_FOUND", "File not found", "/path/to/file");
    assert!(xml.is_ok());
    let xml_str = xml.unwrap();
    assert!(xml_str.contains("test_tool"));
    assert!(xml_str.contains("FILE_NOT_FOUND"));
    assert!(xml_str.contains("File not found"));
    assert!(xml_str.contains("/path/to/file"));
}

#[test]
fn test_error_handler_convert() {
    let result: Result<i32, String> = Ok(42);
    assert_eq!(ErrorHandler::convert(result).unwrap(), 42);

    let result: Result<i32, String> = Err("Error".to_string());
    assert!(ErrorHandler::convert(result).is_err());
}

#[test]
fn test_error_handler_convert_with_context() {
    let result: Result<i32, String> = Err("Error".to_string());
    let err = ErrorHandler::convert_with_context(result, "Context").unwrap_err();
    assert!(err.to_display().contains("Context"));
    assert!(err.to_display().contains("Error"));
}

#[test]
fn test_file_operation_error_display() {
    assert_eq!(FileOperationError::FileNotFound("/test".to_string()).to_display(), "File not found: /test");
    assert_eq!(FileOperationError::NotAFile("/test".to_string()).to_display(), "Not a file: /test");
    assert_eq!(FileOperationError::NotADirectory("/test".to_string()).to_display(), "Not a directory: /test");
    assert_eq!(
        FileOperationError::SpecialFileNotSupported("/dev/null".to_string()).to_display(),
        "Special file not supported: /dev/null"
    );
}

#[test]
fn file_operations_test_validate_file_type_for_read() {
    let checker = FileOperationPrechecker::new();

    assert!(checker.validate_file_type_for_operation(FileType::File, FileOperationType::Read).is_ok());
    assert!(checker.validate_file_type_for_operation(FileType::Directory, FileOperationType::Read).is_ok());
    assert!(checker.validate_file_type_for_operation(FileType::Symlink, FileOperationType::Read).is_ok());

    let result = checker.validate_file_type_for_operation(FileType::Other, FileOperationType::Read);
    assert!(result.is_err());
    assert!(matches!(result.unwrap_err(), FileOperationError::SpecialFileNotSupported(_)));
}

#[test]
fn file_operations_test_validate_file_type_for_write() {
    let checker = FileOperationPrechecker::new();

    assert!(checker.validate_file_type_for_operation(FileType::File, FileOperationType::Write).is_ok());
    assert!(checker.validate_file_type_for_operation(FileType::Symlink, FileOperationType::Write).is_ok());

    let result = checker.validate_file_type_for_operation(FileType::Directory, FileOperationType::Write);
    assert!(result.is_err());
    assert!(matches!(result.unwrap_err(), FileOperationError::NotAFile(_)));

    let result = checker.validate_file_type_for_operation(FileType::Other, FileOperationType::Write);
    assert!(result.is_err());
    assert!(matches!(result.unwrap_err(), FileOperationError::SpecialFileNotSupported(_)));
}

#[test]
fn file_operations_test_validate_file_type_for_edit() {
    let checker = FileOperationPrechecker::new();

    assert!(checker.validate_file_type_for_operation(FileType::File, FileOperationType::Edit).is_ok());

    let result = checker.validate_file_type_for_operation(FileType::Directory, FileOperationType::Edit);
    assert!(result.is_err());

    let result = checker.validate_file_type_for_operation(FileType::Other, FileOperationType::Edit);
    assert!(result.is_err());
}

#[test]
fn test_detect_from_extension_text() {
    assert_eq!(FileTypeDetector::detect_from_extension("test.rs"), Some(FileCategory::Text));
    assert_eq!(FileTypeDetector::detect_from_extension("test.txt"), Some(FileCategory::Text));
}

#[test]
fn test_detect_from_extension_pdf() {
    assert_eq!(FileTypeDetector::detect_from_extension("document.pdf"), Some(FileCategory::Pdf));
}

#[test]
fn test_detect_from_extension_image() {
    assert_eq!(FileTypeDetector::detect_from_extension("image.png"), Some(FileCategory::Image));
    assert_eq!(FileTypeDetector::detect_from_extension("photo.jpg"), Some(FileCategory::Image));
}

#[test]
fn test_detect_from_extension_markdown() {
    assert_eq!(FileTypeDetector::detect_from_extension("README.md"), Some(FileCategory::Markdown));
}

#[test]
fn test_detect_from_extension_json() {
    assert_eq!(FileTypeDetector::detect_from_extension("config.json"), Some(FileCategory::Json));
}

#[test]
fn test_detect_from_content_pdf() {
    let content = b"%PDF-1.4\n%\xE2\xE3\xCF\xD3\n";
    assert_eq!(FileTypeDetector::detect_from_content("test.pdf", content).unwrap(), FileCategory::Pdf);
}

#[test]
fn test_detect_from_content_png() {
    let mut content = vec![0x89u8, 0x50, 0x4E, 0x47, 0x0D, 0x0A, 0x1A, 0x0A];
    content.extend_from_slice(b"some data");
    assert_eq!(FileTypeDetector::detect_from_content("test.png", &content).unwrap(), FileCategory::Image);
}

#[test]
fn test_detect_from_content_jpeg() {
    let content = vec![0xFFu8, 0xD8, 0xFF, 0xE0, 0x00, 0x10, 0x4A, 0x46, 0x49, 0x46];
    assert_eq!(FileTypeDetector::detect_from_content("test.jpg", &content).unwrap(), FileCategory::Image);
}

#[test]
fn test_detect_from_content_text() {
    let content = b"Hello, World!\nThis is a test file.";
    assert_eq!(FileTypeDetector::detect_from_content("test.txt", content).unwrap(), FileCategory::Text);
}

#[test]
fn test_can_encode_base64() {
    assert!(FileTypeDetector::can_encode_base64(1024 * 512, FileCategory::Pdf));
    assert!(!FileTypeDetector::can_encode_base64(1024 * 1024 * 2, FileCategory::Pdf));

    assert!(FileTypeDetector::can_encode_base64(1024 * 1024 * 3, FileCategory::Image));
    assert!(!FileTypeDetector::can_encode_base64(1024 * 1024 * 6, FileCategory::Image));
}

#[test]
fn test_file_category_properties() {
    assert_eq!(FileCategory::Pdf.mime_type(), "application/pdf");
    assert_eq!(FileCategory::Text.mime_type(), "text/plain");

    assert!(FileCategory::Pdf.should_base64_encode());
    assert!(FileCategory::Image.should_base64_encode());
    assert!(FileCategory::Binary.should_base64_encode());
    assert!(!FileCategory::Text.should_base64_encode());

    assert!(FileCategory::Pdf.should_extract_text());
    assert!(!FileCategory::Image.should_extract_text());
}

#[test]
fn json_builder_test_build_success() {
    let data = JsonValue::Object(vec![("result".to_string(), JsonValue::Str("ok".to_string()))]);
    let json = JsonBuilder::build_success("test_tool", data);
    assert_eq!(text_of(at(&json, "status")), "success");
    assert_eq!(text_of(at(&json, "tool")), "test_tool");
    assert_eq!(text_of(at(at(&json, "data"), "result")), "ok");
}

#[test]
fn json_builder_test_build_error() {
    let json = JsonBuilder::build_error("test_tool", "FILE_NOT_FOUND", "File not found", "/path/to/file");
    assert_eq!(text_of(at(&json, "status")), "error");
    assert_eq!(text_of(at(&json, "tool")), "test_tool");
    assert_eq!(text_of(at(at(&json, "error"), "code")), "FILE_NOT_FOUND");
    assert_eq!(text_of(at(at(&json, "error"), "message")), "File not found");
    assert_eq!(text_of(at(at(&json, "error"), "details")), "/path/to/file");
}

#[test]
fn test_build_file_content() {
    let json = JsonBuilder::build_file_content("/tmp/test.txt", "Hello, World!", None, None, Some(1));
    assert_eq!(text_of(at(&json, "status")), "success");
    let data = at(&json, "data");
    assert_eq!(text_of(at(data, "path")), "/tmp/test.txt");
    assert_eq!(text_of(at(data, "content")), "Hello, World!");
    assert_eq!(number_of(at(data, "total_lines")), 1);
    assert_eq!(number_of(at(data, "lines_read")), 1);
    assert_eq!(number_of(at(data, "size")), 13);
}

#[test]
fn test_build_glob_results() {
    let matches = vec!["/tmp/file1.txt".to_string(), "/tmp/file2.txt".to_string()];
    let json = JsonBuilder::build_glob_results("*.txt", matches);
    let data = at(&json, "data");
    assert_eq!(text_of(at(data, "pattern")), "*.txt");
    assert_eq!(number_of(at(data, "count")), 2);
    assert_eq!(text_of(item(at(data, "matches"), 0)), "/tmp/file1.txt");
    assert_eq!(text_of(item(at(data, "matches"), 1)), "/tmp/file2.txt");
}

#[test]
fn test_build_directory_listing() {
    let json = JsonBuilder::build_directory_listing("/tmp", vec![sample_entry()]);
    let data = at(&json, "data");
    assert_eq!(text_of(at(data, "path")), "/tmp");
    assert_eq!(number_of(at(at(data, "summary"), "files")), 1);
    let entry = item(at(data, "entries"), 0);
    assert_eq!(text_of(at(entry, "name")), "file.txt");
    assert_eq!(text_of(at(entry, "type")), "file");
    assert_eq!(number_of(at(entry, "size")), 1024);
}

#[test]
fn test_permission_status_allowed() {
    let status = PermissionStatus::allowed();
    assert!(status.allowed);
    assert!(status.reason.is_none());
    assert!(status.suggestion.is_none());
}

#[test]
fn test_permission_status_denied() {
    let status = PermissionStatus::denied("Access denied".to_string(), Some("Check permissions".to_string()));
    assert!(!status.allowed);
    assert_eq!(status.reason, Some("Access denied".to_string()));
    assert_eq!(status.suggestion, Some("Check permissions".to_string()));
}

#[test]
fn test_permission_status_denied_no_suggestion() {
    let status = PermissionStatus::denied("Access denied".to_string(), None);
    assert!(!status.allowed);
    assert_eq!(status.reason, Some("Access denied".to_string()));
    assert!(status.suggestion.is_none());
}

#[test]
fn test_dependency_type_equality() {
    assert_eq!(DependencyType::FileSystem, DependencyType::FileSystem);
    assert_eq!(DependencyType::CommandExecutor, DependencyType::CommandExecutor);
    assert_eq!(DependencyType::Custom, DependencyType::Custom);
    assert_ne!(DependencyType::FileSystem, DependencyType::CommandExecutor);
}

#[test]
fn test_disclosure_policy() {
    let always = DisclosurePolicy::Always;
    let conditional = DisclosurePolicy::Conditional { context: vec!["file_operations".to_string()] };
    let sequential = DisclosurePolicy::Sequential { after: vec!["read".to_string()] };
    let explicit = DisclosurePolicy::Explicit;

    assert!(matches!(always, DisclosurePolicy::Always));
    assert!(matches!(conditional, DisclosurePolicy::Conditional { .. }));
    assert!(matches!(sequential, DisclosurePolicy::Sequential { .. }));
    assert!(matches!(explicit, DisclosurePolicy::Explicit));
}

#[test]
fn test_validate_path() {
    assert!(validate_path("").is_err());
    assert!(validate_path("../etc").is_err());
    assert!(validate_path("/tmp/../etc").is_err());
    assert!(validate_path("/tmp/file.txt").is_ok());
}

#[test]
fn test_validate_command() {
    assert!(validate_command("").is_err());
    assert!(validate_command("ls && rm -rf /").is_err());
    assert!(validate_command("ls").is_ok());
    assert!(validate_command("git status").is_ok());
}

#[test]
fn test_validate_timeout() {
    assert!(validate_timeout(0).is_err());
    assert!(validate_timeout(700).is_err());
    assert!(validate_timeout(30).is_ok());
}

#[test]
fn test_validate_content_size() {
    assert!(validate_content_size("").is_err());
    assert!(validate_content_size("Hello").is_ok());
    assert!(validate_content_size(&"x".repeat(MAX_CONTENT_SIZE + 1)).is_err());
}

#[test]
fn test_validate_read_range() {
    assert!(validate_read_range(Some(MAX_OFFSET + 1), None).is_err());
    assert!(validate_read_range(None, Some(0)).is_err());
    assert!(validate_read_range(Some(100), Some(1000)).is_ok());
}

#[test]
fn validation_test_validate_file_type_for_read() {
    assert!(validate_file_type_for_operation(FileType::File, ValidationOperation::Read).is_ok());
    assert!(validate_file_type_for_operation(FileType::Directory, ValidationOperation::Read).is_ok());
    assert!(validate_file_type_for_operation(FileType::Symlink, ValidationOperation::Read).is_ok());
    assert!(validate_file_type_for_operation(FileType::Other, ValidationOperation::Read).is_err());
}

#[test]
fn validation_test_validate_file_type_for_write() {
    assert!(validate_file_type_for_operation(FileType::File, ValidationOperation::Write).is_ok());
    assert!(validate_file_type_for_operation(FileType::Directory, ValidationOperation::Write).is_err());
    assert!(validate_file_type_for_operation(FileType::Other, ValidationOperation::Write).is_err());
}

#[test]
fn validation_test_validate_file_type_for_edit() {
    assert!(validate_file_type_for_operation(FileType::File, ValidationOperation::Edit).is_ok());
    assert!(validate_file_type_for_operation(FileType::Directory, ValidationOperation::Edit).is_err());
    assert!(validate_file_type_for_operation(FileType::Other, ValidationOperation::Edit).is_err());
}

#[test]
fn test_validate_symlink_safe() {
    assert!(validate_symlink_safe(0).is_ok());
    assert!(validate_symlink_safe(4).is_ok());
    assert!(validate_symlink_safe(7).is_ok());
    assert!(validate_symlink_safe(8).is_err());
    assert!(validate_symlink_safe(10).is_err());
}

#[test]
fn test_validate_symlink_security() {
    assert!(validate_symlink_security("/home/user/file.txt").is_ok());
    assert!(validate_symlink_security("../etc/passwd").is_err());
    assert!(validate_symlink_security("path\\..\\file").is_err());
    assert!(validate_symlink_security("/tmp/suspicious/link").is_err());
}

#[test]
fn xml_builder_test_build_success() {
    let xml = XmlBuilder::build_success("test_tool", "<content>test</content>", "Test completed");
    assert!(xml.contains("<tool_result"));
    assert!(xml.contains("name=\"test_tool\""));
    assert!(xml.contains("status=\"success\""));
    assert!(xml.contains("<summary>Test completed</summary>"));
}

#[test]
fn xml_builder_test_build_error() {
    let xml = XmlBuilder::build_error("test_tool", "FILE_NOT_FOUND", "File not found", "/path/to/file");
    assert!(xml.contains("status=\"error\""));
    assert!(xml.contains("<error_code>FILE_NOT_FOUND</error_code>"));
    assert!(xml.contains("<message>File not found</message>"));
    assert!(xml.contains("<details>/path/to/file</details>"));
}

#[test]
fn test_escape_xml() {
    assert_eq!(escape_xml("test & <test>"), "test &amp; &lt;test&gt;");
    assert_eq!(escape_xml("quote's \"double\""), "quote&apos;s &quot;double&quot;");
}

#[test]
fn test_build_directory_xml() {
    let xml = XmlBuilder::build_directory_xml("/tmp", vec![sample_entry()]);
    assert!(xml.contains("<directory path=\"/tmp\">"));
    assert!(xml.contains("<name>file.txt</name>"));
    assert!(xml.contains("<type>file</type>"));
    assert!(xml.contains("<size>1024</size>"));
    assert!(xml.contains("1 files, 0 directories"));
}

#[test]
fn test_build_file_content_xml() {
    let xml = XmlBuilder::build_file_content_xml("/tmp/test.txt", "Hello, World!", None, None);
    assert!(xml.contains("<file path=\"/tmp/test.txt\">"));
    assert!(xml.contains("<content>Hello, World!</content>"));
    assert!(xml.contains("<size>13</size>"));
}

#[test]
fn test_build_glob_result_xml() {
    let matches = vec!["/tmp/file1.txt".to_string(), "/tmp/file2.txt".to_string()];
    let xml = XmlBuilder::build_glob_result_xml("*.txt", matches);
    assert!(xml.contains("<matches pattern=\"*.txt\">"));
    assert!(xml.contains("<file>/tmp/file1.txt</file>"));
    assert!(xml.contains("Found 2 files"));
}
