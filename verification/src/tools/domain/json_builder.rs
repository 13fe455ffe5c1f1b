//! JSON responses of the tools, with one schema for all of them:
//! `{"status": "success", "tool": .., "data": ..}` or
//! `{"status": "error", "tool": .., "error": {"code", "message", "details"}}`.
//!
//! Members are listed in the order the documents are written; the order of
//! an object's members carries no meaning.
use vstd::prelude::*;
use crate::model::{CommandResult, FileMetadata, FileType};
use crate::text::{chars_of, decimal, decimal_chars, extend_chars, extend_str, lines, lines_of, string_of, utf8_len, str_byte_len, views};
use crate::tools::domain::json_value::{
    elems_view, jget, jstr, json_view, lemma_array_view, lemma_object_view, members_view, str_member, uint_member,
    JsonNumber, JsonValue, JsonView, NumberView,
};

verus! {

/// JSON builder domain service.
pub struct JsonBuilder;

/// PDF metadata.
#[derive(Debug, Clone)]
pub struct PdfMetadata {
    pub pages: Option<u32>,
    pub title: Option<String>,
    pub author: Option<String>,
    pub size: usize,
}

/// Image metadata.
#[derive(Debug, Clone)]
pub struct ImageMetadata {
    pub format: String,
    pub width: Option<u32>,
    pub height: Option<u32>,
    pub color_type: Option<String>,
    pub has_alpha: Option<bool>,
    pub size: usize,
}

/// A grep match.
#[derive(Debug, Clone)]
pub struct GrepMatch {
    pub file_path: String,
    pub line_number: usize,
    pub line_content: String,
}

/// PDFs larger than this (1 MB) are sent without base64 content.
pub const PDF_BASE64_LIMIT: usize = 1048576;

// ---------------------------------------------------------------------------
// Documents
// ---------------------------------------------------------------------------

/// A boolean member.
pub open spec fn bool_member(key: Seq<char>, value: bool) -> (Seq<char>, JsonView) {
    (key, JsonView::Bool(value))
}

/// The number a signed 32-bit integer becomes.
pub open spec fn int_number(v: i32) -> NumberView {
    if v >= 0 { NumberView::PosInt(v as u64) } else { NumberView::NegInt(v as i64) }
}

/// The success document.
pub open spec fn success_doc(tool: Seq<char>, data: JsonView) -> JsonView {
    JsonView::Object(seq![str_member("status"@, "success"@), str_member("tool"@, tool), ("data"@, data)])
}

/// The error document.
pub open spec fn error_doc(tool: Seq<char>, code: Seq<char>, message: Seq<char>, details: Seq<char>) -> JsonView {
    JsonView::Object(
        seq![
            str_member("status"@, "error"@),
            str_member("tool"@, tool),
            ("error"@, JsonView::Object(seq![str_member("code"@, code), str_member("message"@, message), str_member("details"@, details)])),
        ],
    )
}

/// The name of a file type in documents.
pub open spec fn file_type_label(t: FileType) -> Seq<char> {
    match t {
        FileType::File => "file"@,
        FileType::Directory => "directory"@,
        FileType::Symlink => "symlink"@,
        FileType::Other => "other"@,
    }
}

/// The members describing a directory entry: name, type, permissions,
/// modification time and hiddenness, and the size of files.
pub open spec fn entry_doc(e: FileMetadata) -> JsonView {
    let base = seq![
        str_member("name"@, e.name@),
        str_member("type"@, file_type_label(e.file_type)),
        str_member("permissions"@, e.permissions@),
        str_member("modified"@, e.modified@),
        bool_member("hidden"@, e.is_hidden),
    ];
    JsonView::Object(if e.file_type == FileType::File { base.push(uint_member("size"@, e.size)) } else { base })
}

/// Number of entries of the given type.
pub open spec fn count_type(s: Seq<FileMetadata>, t: FileType) -> nat
    decreases s.len(),
{
    if s.len() == 0 {
        0
    } else {
        count_type(s.drop_last(), t) + if s.last().file_type == t { 1nat } else { 0nat }
    }
}

/// The data of a directory listing.
pub open spec fn listing_data(path: Seq<char>, entries: Seq<FileMetadata>) -> JsonView {
    JsonView::Object(
        seq![
            str_member("path"@, path),
            ("entries"@, JsonView::Array(entries.map_values(|e: FileMetadata| entry_doc(e)))),
            ("summary"@, JsonView::Object(seq![
                uint_member("files"@, count_type(entries, FileType::File) as u64),
                uint_member("directories"@, count_type(entries, FileType::Directory) as u64),
                uint_member("total"@, entries.len() as u64),
            ])),
        ],
    )
}

/// The data of a file read: path, content, byte size and number of lines,
/// the total line count when known, and the requested range when given.
pub open spec fn file_content_data(
    path: Seq<char>,
    content: Seq<char>,
    offset: Option<usize>,
    limit: Option<usize>,
    total_lines: Option<usize>,
) -> JsonView {
    let base = seq![
        str_member("path"@, path),
        str_member("content"@, content),
        uint_member("size"@, utf8_len(content) as u64),
        uint_member("lines_read"@, lines(content).len() as u64),
    ];
    let with_total = match total_lines {
        Some(t) => base.push(uint_member("total_lines"@, t as u64)),
        None => base,
    };
    let range_members = (match offset {
        Some(o) => seq![uint_member("offset"@, o as u64)],
        None => Seq::empty(),
    }) + (match limit {
        Some(l) => seq![uint_member("limit"@, l as u64)],
        None => Seq::empty(),
    });
    JsonView::Object(
        if offset is Some || limit is Some { with_total.push(("range"@, JsonView::Object(range_members))) } else { with_total },
    )
}

/// Strings as an array of JSON strings.
pub open spec fn string_array(s: Seq<Seq<char>>) -> JsonView {
    JsonView::Array(s.map_values(|x: Seq<char>| JsonView::Str(x)))
}

/// The data of a glob search.
pub open spec fn glob_data(pattern: Seq<char>, matches: Seq<Seq<char>>) -> JsonView {
    JsonView::Object(seq![str_member("pattern"@, pattern), ("matches"@, string_array(matches)), uint_member("count"@, matches.len() as u64)])
}

/// One grep match.
pub open spec fn grep_match_doc(m: GrepMatch) -> JsonView {
    JsonView::Object(seq![str_member("file"@, m.file_path@), uint_member("line"@, m.line_number as u64), str_member("content"@, m.line_content@)])
}

/// The data of a grep search.
pub open spec fn grep_data(pattern: Seq<char>, matches: Seq<GrepMatch>) -> JsonView {
    JsonView::Object(seq![
        str_member("pattern"@, pattern),
        ("matches"@, JsonView::Array(matches.map_values(|m: GrepMatch| grep_match_doc(m)))),
        uint_member("count"@, matches.len() as u64),
    ])
}

/// The data of a command run: command, success and duration, then the exit
/// code when known and the outputs when not empty.
pub open spec fn command_data(command: Seq<char>, r: CommandResult) -> JsonView {
    let base = seq![str_member("command"@, command), bool_member("success"@, r.success), uint_member("duration_ms"@, r.duration_ms)];
    let a = match r.exit_code {
        Some(c) => base.push(("exit_code"@, JsonView::Number(int_number(c)))),
        None => base,
    };
    let b = if r.stdout@.len() > 0 { a.push(str_member("stdout"@, r.stdout@)) } else { a };
    let c = if r.stderr@.len() > 0 { b.push(str_member("stderr"@, r.stderr@)) } else { b };
    JsonView::Object(c)
}

/// The data of a stat: path, name, type, permissions, modification time,
/// hiddenness, readability, writability, and the size of files.
pub open spec fn stat_data(m: FileMetadata) -> JsonView {
    let base = seq![
        str_member("path"@, m.path@),
        str_member("name"@, m.name@),
        str_member("type"@, file_type_label(m.file_type)),
        str_member("permissions"@, m.permissions@),
        str_member("modified"@, m.modified@),
        bool_member("hidden"@, m.is_hidden),
        bool_member("readable"@, m.is_readable),
        bool_member("writable"@, m.is_writable),
    ];
    JsonView::Object(if m.file_type == FileType::File { base.push(uint_member("size"@, m.size)) } else { base })
}

/// The metadata document of a PDF.
pub open spec fn pdf_metadata_doc(m: PdfMetadata) -> JsonView {
    let a = seq![uint_member("size"@, m.size as u64)];
    let b = match m.pages {
        Some(p) => a.push(uint_member("pages"@, p as u64)),
        None => a,
    };
    let c = match m.title {
        Some(t) => b.push(str_member("title"@, t@)),
        None => b,
    };
    let d = match m.author {
        Some(au) => c.push(str_member("author"@, au@)),
        None => c,
    };
    JsonView::Object(d)
}

/// The data of a PDF read, with base64 content when given, or a note when
/// it was skipped for size.
pub open spec fn pdf_data(path: Seq<char>, text: Seq<char>, base64: Option<Seq<char>>, m: PdfMetadata) -> JsonView {
    let base = seq![
        str_member("path"@, path),
        str_member("type"@, "pdf"@),
        ("metadata"@, pdf_metadata_doc(m)),
        str_member("content"@, text),
    ];
    JsonView::Object(
        match base64 {
            Some(b) => base.push(str_member("content_base64"@, b)),
            None => if m.size > PDF_BASE64_LIMIT {
                base.push(str_member("note"@, "Base64 encoding skipped due to size (> 1MB)"@))
            } else {
                base
            },
        },
    )
}

/// The metadata document of an image.
pub open spec fn image_metadata_doc(m: ImageMetadata) -> JsonView {
    let a = seq![str_member("format"@, m.format@), uint_member("size"@, m.size as u64)];
    let b = match m.width {
        Some(w) => a.push(uint_member("width"@, w as u64)),
        None => a,
    };
    let c = match m.height {
        Some(h) => b.push(uint_member("height"@, h as u64)),
        None => b,
    };
    let d = match m.color_type {
        Some(t) => c.push(str_member("color_type"@, t@)),
        None => c,
    };
    let e = match m.has_alpha {
        Some(x) => d.push(bool_member("has_alpha"@, x)),
        None => d,
    };
    JsonView::Object(e)
}

/// The details of the error for a binary file too large to encode.
pub open spec fn too_large_details(size: nat, preview: Seq<char>) -> Seq<char> {
    "File type: application/octet-stream\nSize: "@ + decimal(size)
        + " bytes\nRecommendation: Use specific file handler or process in chunks\nPreview: "@ + preview
}

// ---------------------------------------------------------------------------
// Construction helpers
// ---------------------------------------------------------------------------

pub(crate) fn text(key: &str, value: &str) -> (r: (String, JsonValue))
    ensures
        (r.0@, json_view(r.1)) == str_member(key@, value@),
{
    (key.to_owned(), JsonValue::Str(value.to_owned()))
}

pub(crate) fn uint(key: &str, value: u64) -> (r: (String, JsonValue))
    ensures
        (r.0@, json_view(r.1)) == uint_member(key@, value),
{
    (key.to_owned(), JsonValue::Number(JsonNumber::PosInt(value)))
}

fn flag(key: &str, value: bool) -> (r: (String, JsonValue))
    ensures
        (r.0@, json_view(r.1)) == bool_member(key@, value),
{
    (key.to_owned(), JsonValue::Bool(value))
}

pub(crate) fn nested(key: &str, value: JsonValue) -> (r: (String, JsonValue))
    ensures
        r.0@ == key@,
        json_view(r.1) == json_view(value),
{
    (key.to_owned(), value)
}

fn type_str(t: FileType) -> (r: &'static str)
    ensures
        r@ == file_type_label(t),
{
    match t {
        FileType::File => "file",
        FileType::Directory => "directory",
        FileType::Symlink => "symlink",
        FileType::Other => "other",
    }
}

/// An object with the given members.
pub(crate) fn object(members: Vec<(String, JsonValue)>) -> (r: JsonValue)
    ensures
        r@ == JsonView::Object(members_view(members@)),
        members_view(members@).len() == members@.len(),
        forall|i: int| 0 <= i < members@.len() ==> #[trigger] members_view(members@)[i] == (members@[i].0@, json_view(members@[i].1)),
{
    proof {
        lemma_object_view(members@);
    }
    JsonValue::Object(members)
}

/// A directory entry's document.
fn entry_value(e: &FileMetadata) -> (r: JsonValue)
    ensures
        r@ == entry_doc(*e),
{
    let mut m: Vec<(String, JsonValue)> = Vec::new();
    m.push(text("name", e.name.as_str()));
    m.push(text("type", type_str(e.file_type)));
    m.push(text("permissions", e.permissions.as_str()));
    m.push(text("modified", e.modified.as_str()));
    m.push(flag("hidden", e.is_hidden));
    if e.file_type == FileType::File {
        m.push(uint("size", e.size));
    }
    let r = object(m);
    assert(r@ == entry_doc(*e)) by {
        if let JsonView::Object(x) = entry_doc(*e) {
            assert(members_view(m@) =~= x);
        }
    }
    r
}

impl JsonBuilder {
    /// A JSON builder.
    pub fn new() -> (r: Self) {
        JsonBuilder
    }

    /// The success document wrapping a tool's data.
    pub fn build_success(tool_name: &str, data: JsonValue) -> (r: JsonValue)
        ensures
            r@ == success_doc(tool_name@, data@),
    {
        let ghost d = data@;
        let mut m: Vec<(String, JsonValue)> = Vec::new();
        m.push(text("status", "success"));
        m.push(text("tool", tool_name));
        m.push(nested("data", data));
        let r = object(m);
        assert(r@ == success_doc(tool_name@, d)) by {
            if let JsonView::Object(x) = success_doc(tool_name@, d) {
                assert(members_view(m@) =~= x);
            }
        }
        r
    }

    /// The error document.
    pub fn build_error(tool_name: &str, error_code: &str, message: &str, details: &str) -> (r: JsonValue)
        ensures
            r@ == error_doc(tool_name@, error_code@, message@, details@),
    {
        let mut e: Vec<(String, JsonValue)> = Vec::new();
        e.push(text("code", error_code));
        e.push(text("message", message));
        e.push(text("details", details));
        let ev = object(e);
        let ghost ev_view = ev@;
        let mut m: Vec<(String, JsonValue)> = Vec::new();
        m.push(text("status", "error"));
        m.push(text("tool", tool_name));
        m.push(nested("error", ev));
        let r = object(m);
        assert(r@ == error_doc(tool_name@, error_code@, message@, details@)) by {
            if let JsonView::Object(x) = error_doc(tool_name@, error_code@, message@, details@) {
                if let JsonView::Object(y) = x[2].1 {
                    assert(members_view(e@) =~= y);
                }
                assert(members_view(m@) =~= x);
            }
        }
        r
    }

    /// The directory listing of the list tool, with a summary counting
    /// files and directories.
    pub fn build_directory_listing(path: &str, entries: Vec<FileMetadata>) -> (r: JsonValue)
        ensures
            r@ == success_doc("list"@, listing_data(path@, entries@)),
    {
        let mut items: Vec<JsonValue> = Vec::new();
        let mut files: usize = 0;
        let mut dirs: usize = 0;
        let mut i: usize = 0;
        while i < entries.len()
            invariant
                i <= entries@.len(),
                files == count_type(entries@.take(i as int), FileType::File),
                dirs == count_type(entries@.take(i as int), FileType::Directory),
                files <= i,
                dirs <= i,
                elems_view(items@) == entries@.take(i as int).map_values(|e: FileMetadata| entry_doc(e)),
            decreases entries.len() - i,
        {
            proof {
                assert(entries@.take(i + 1).drop_last() =~= entries@.take(i as int));
            }
            let v = entry_value(&entries[i]);
            let ghost before = items@;
            items.push(v);
            proof {
                assert(items@.drop_last() =~= before);
                assert(entries@.take(i + 1).map_values(|e: FileMetadata| entry_doc(e)) =~= entries@.take(
                    i as int,
                ).map_values(|e: FileMetadata| entry_doc(e)).push(entry_doc(entries@[i as int])));
            }
            if entries[i].file_type == FileType::File {
                files = files + 1;
            }
            if entries[i].file_type == FileType::Directory {
                dirs = dirs + 1;
            }
            i = i + 1;
        }
        assert(entries@.take(entries@.len() as int) =~= entries@);
        let mut summary: Vec<(String, JsonValue)> = Vec::new();
        summary.push(uint("files", files as u64));
        summary.push(uint("directories", dirs as u64));
        summary.push(uint("total", entries.len() as u64));
        let sv = object(summary);
        let ghost sview = sv@;
        let ghost iview = elems_view(items@);
        let mut m: Vec<(String, JsonValue)> = Vec::new();
        m.push(text("path", path));
        m.push(nested("entries", JsonValue::Array(items)));
        m.push(nested("summary", sv));
        let data = object(m);
        assert(data@ == listing_data(path@, entries@)) by {
            if let JsonView::Object(x) = listing_data(path@, entries@) {
                if let JsonView::Object(y) = x[2].1 {
                    assert(members_view(summary@) =~= y);
                }
                assert(members_view(m@) =~= x);
            }
        }
        Self::build_success("list", data)
    }

    /// The content of a file read.
    pub fn build_file_content(
        path: &str,
        content: &str,
        offset: Option<usize>,
        limit: Option<usize>,
        total_lines: Option<usize>,
    ) -> (r: JsonValue)
        requires
            utf8_len(content@) <= usize::MAX,
        ensures
            r@ == success_doc("read"@, file_content_data(path@, content@, offset, limit, total_lines)),
    {
        let c = chars_of(content);
        let lv = lines_of(c.as_slice());
        let line_count = lv.len();
        let size = str_byte_len(content);
        let mut m: Vec<(String, JsonValue)> = Vec::new();
        m.push(text("path", path));
        m.push(text("content", content));
        m.push(uint("size", size as u64));
        m.push(uint("lines_read", line_count as u64));
        if let Some(t) = total_lines {
            m.push(uint("total_lines", t as u64));
        }
        let mut range: Vec<(String, JsonValue)> = Vec::new();
        if let Some(o) = offset {
            range.push(uint("offset", o as u64));
        }
        if let Some(l) = limit {
            range.push(uint("limit", l as u64));
        }
        let has_range = offset.is_some() || limit.is_some();
        let rv = object(range);
        let ghost rview = rv@;
        if has_range {
            m.push(nested("range", rv));
        }
        let data = object(m);
        assert(data@ == file_content_data(path@, content@, offset, limit, total_lines)) by {
            assert(views(lv@).len() == lv@.len());
            let rm = (match offset {
                Some(o) => seq![uint_member("offset"@, o as u64)],
                None => Seq::empty(),
            }) + (match limit {
                Some(l) => seq![uint_member("limit"@, l as u64)],
                None => Seq::empty(),
            });
            assert(members_view(range@) =~= rm);
            let base = seq![
                str_member("path"@, path@),
                str_member("content"@, content@),
                uint_member("size"@, utf8_len(content@) as u64),
                uint_member("lines_read"@, lines(content@).len() as u64),
            ];
            let with_total = match total_lines {
                Some(t) => base.push(uint_member("total_lines"@, t as u64)),
                None => base,
            };
            if has_range {
                assert(members_view(m@) =~= with_total.push(("range"@, JsonView::Object(rm))));
            } else {
                assert(members_view(m@) =~= with_total);
            }
        }
        Self::build_success("read", data)
    }
}

} // verus!

verus! {

/// The data of a head or tail read.
pub open spec fn head_tail_data(path: Seq<char>, lines: Seq<Seq<char>>, mode: Seq<char>, count: usize, total_lines: usize) -> JsonView {
    JsonView::Object(seq![
        str_member("path"@, path),
        str_member("mode"@, mode),
        uint_member("count"@, count as u64),
        uint_member("total_lines"@, total_lines as u64),
        ("lines"@, string_array(lines)),
    ])
}

/// Strings as a JSON array of strings.
fn strings_value(v: &Vec<String>) -> (r: JsonValue)
    ensures
        r@ == string_array(v@.map_values(|x: String| x@)),
{
    let mut items: Vec<JsonValue> = Vec::new();
    let mut i: usize = 0;
    while i < v.len()
        invariant
            i <= v@.len(),
            elems_view(items@) == v@.take(i as int).map_values(|x: String| JsonView::Str(x@)),
        decreases v.len() - i,
    {
        let ghost before = items@;
        let item = JsonValue::Str(v[i].clone());
        assert(json_view(item) == JsonView::Str(v@[i as int]@));
        items.push(item);
        proof {
            assert(items@.drop_last() =~= before);
            assert(elems_view(items@) == elems_view(before).push(JsonView::Str(v@[i as int]@)));
            assert(v@.take(i + 1).map_values(|x: String| JsonView::Str(x@)) =~= v@.take(i as int).map_values(
                |x: String| JsonView::Str(x@),
            ).push(JsonView::Str(v@[i as int]@)));
        }
        i = i + 1;
    }
    proof {
        assert(v@.take(v@.len() as int) =~= v@);
        assert(v@.map_values(|x: String| JsonView::Str(x@)) =~= v@.map_values(|x: String| x@).map_values(
            |x: Seq<char>| JsonView::Str(x),
        ));
    }
    JsonValue::Array(items)
}

impl JsonBuilder {
    /// The matches of a glob search.
    pub fn build_glob_results(pattern: &str, matches: Vec<String>) -> (r: JsonValue)
        ensures
            r@ == success_doc("glob"@, glob_data(pattern@, matches@.map_values(|x: String| x@))),
    {
        let arr = strings_value(&matches);
        let ghost av = arr@;
        let mut m: Vec<(String, JsonValue)> = Vec::new();
        m.push(text("pattern", pattern));
        m.push(nested("matches", arr));
        m.push(uint("count", matches.len() as u64));
        let data = object(m);
        assert(data@ == glob_data(pattern@, matches@.map_values(|x: String| x@))) by {
            if let JsonView::Object(x) = glob_data(pattern@, matches@.map_values(|x: String| x@)) {
                assert(members_view(m@) =~= x);
            }
        }
        Self::build_success("glob", data)
    }

    /// The matches of a grep search.
    pub fn build_grep_results(pattern: &str, matches: Vec<GrepMatch>) -> (r: JsonValue)
        ensures
            r@ == success_doc("grep"@, grep_data(pattern@, matches@)),
    {
        let mut items: Vec<JsonValue> = Vec::new();
        let mut i: usize = 0;
        while i < matches.len()
            invariant
                i <= matches@.len(),
                elems_view(items@) == matches@.take(i as int).map_values(|g: GrepMatch| grep_match_doc(g)),
            decreases matches.len() - i,
        {
            let mut e: Vec<(String, JsonValue)> = Vec::new();
            e.push(text("file", matches[i].file_path.as_str()));
            e.push(uint("line", matches[i].line_number as u64));
            e.push(text("content", matches[i].line_content.as_str()));
            let ev = object(e);
            proof {
                if let JsonView::Object(x) = grep_match_doc(matches@[i as int]) {
                    assert(members_view(e@) =~= x);
                }
            }
            let ghost before = items@;
            items.push(ev);
            proof {
                assert(items@.drop_last() =~= before);
                assert(matches@.take(i + 1).map_values(|g: GrepMatch| grep_match_doc(g)) =~= matches@.take(
                    i as int,
                ).map_values(|g: GrepMatch| grep_match_doc(g)).push(grep_match_doc(matches@[i as int])));
            }
            i = i + 1;
        }
        assert(matches@.take(matches@.len() as int) =~= matches@);
        let ghost iv = elems_view(items@);
        let mut m: Vec<(String, JsonValue)> = Vec::new();
        m.push(text("pattern", pattern));
        m.push(nested("matches", JsonValue::Array(items)));
        m.push(uint("count", matches.len() as u64));
        let data = object(m);
        assert(data@ == grep_data(pattern@, matches@)) by {
            if let JsonView::Object(x) = grep_data(pattern@, matches@) {
                assert(members_view(m@) =~= x);
            }
        }
        Self::build_success("grep", data)
    }

    /// The outcome of a command run by the bash tool.
    pub fn build_command_result(command: &str, result: &CommandResult) -> (r: JsonValue)
        ensures
            r@ == success_doc("bash"@, command_data(command@, *result)),
    {
        let mut m: Vec<(String, JsonValue)> = Vec::new();
        m.push(text("command", command));
        m.push(flag("success", result.success));
        m.push(uint("duration_ms", result.duration_ms));
        let ghost m0 = members_view(m@);
        if let Some(code) = result.exit_code {
            let n = if code >= 0 { JsonNumber::PosInt(code as u64) } else { JsonNumber::NegInt(code as i64) };
            m.push(("exit_code".to_owned(), JsonValue::Number(n)));
        }
        if !result.stdout.as_str().is_empty() {
            m.push(text("stdout", result.stdout.as_str()));
        }
        if !result.stderr.as_str().is_empty() {
            m.push(text("stderr", result.stderr.as_str()));
        }
        let data = object(m);
        assert(data@ == command_data(command@, *result)) by {
            if let JsonView::Object(x) = command_data(command@, *result) {
                assert(members_view(m@) =~= x);
            }
        }
        Self::build_success("bash", data)
    }

    /// The outcome of a write.
    pub fn build_write_result(path: &str, bytes_written: usize) -> (r: JsonValue)
        ensures
            r@ == success_doc("write"@, JsonView::Object(seq![str_member("path"@, path@), uint_member("bytes_written"@, bytes_written as u64)])),
    {
        let mut m: Vec<(String, JsonValue)> = Vec::new();
        m.push(text("path", path));
        m.push(uint("bytes_written", bytes_written as u64));
        let data = object(m);
        assert(members_view(m@) =~= seq![str_member("path"@, path@), uint_member("bytes_written"@, bytes_written as u64)]);
        Self::build_success("write", data)
    }

    /// The metadata of a stat.
    pub fn build_stat_result(metadata: &FileMetadata) -> (r: JsonValue)
        ensures
            r@ == success_doc("stat"@, stat_data(*metadata)),
    {
        let mut m: Vec<(String, JsonValue)> = Vec::new();
        m.push(text("path", metadata.path.as_str()));
        m.push(text("name", metadata.name.as_str()));
        m.push(text("type", type_str(metadata.file_type)));
        m.push(text("permissions", metadata.permissions.as_str()));
        m.push(text("modified", metadata.modified.as_str()));
        m.push(flag("hidden", metadata.is_hidden));
        m.push(flag("readable", metadata.is_readable));
        m.push(flag("writable", metadata.is_writable));
        if metadata.file_type == FileType::File {
            m.push(uint("size", metadata.size));
        }
        let data = object(m);
        assert(data@ == stat_data(*metadata)) by {
            if let JsonView::Object(x) = stat_data(*metadata) {
                assert(members_view(m@) =~= x);
            }
        }
        Self::build_success("stat", data)
    }

    /// A PDF read: text, metadata, and base64 content when given (or a note
    /// when it was skipped because the file is over 1 MB).
    pub fn build_pdf_result(path: &str, text_content: &str, base64_content: Option<&str>, metadata: &PdfMetadata) -> (r: JsonValue)
        ensures
            r@ == success_doc("read"@, pdf_data(path@, text_content@, match base64_content {
                Some(b) => Some(b@),
                None => None,
            }, *metadata)),
    {
        let mut md: Vec<(String, JsonValue)> = Vec::new();
        md.push(uint("size", metadata.size as u64));
        if let Some(p) = metadata.pages {
            md.push(uint("pages", p as u64));
        }
        if let Some(t) = &metadata.title {
            md.push(text("title", t.as_str()));
        }
        if let Some(a) = &metadata.author {
            md.push(text("author", a.as_str()));
        }
        let mv = object(md);
        assert(mv@ == pdf_metadata_doc(*metadata)) by {
            if let JsonView::Object(x) = pdf_metadata_doc(*metadata) {
                assert(members_view(md@) =~= x);
            }
        }
        let mut m: Vec<(String, JsonValue)> = Vec::new();
        m.push(text("path", path));
        m.push(text("type", "pdf"));
        m.push(nested("metadata", mv));
        m.push(text("content", text_content));
        match base64_content {
            Some(b) => {
                m.push(text("content_base64", b));
            },
            None => {
                if metadata.size > PDF_BASE64_LIMIT {
                    m.push(text("note", "Base64 encoding skipped due to size (> 1MB)"));
                }
            },
        }
        let data = object(m);
        let ghost b64 = match base64_content {
            Some(b) => Some(b@),
            None => None,
        };
        assert(data@ == pdf_data(path@, text_content@, b64, *metadata)) by {
            if let JsonView::Object(x) = pdf_data(path@, text_content@, b64, *metadata) {
                assert(members_view(m@) =~= x);
            }
        }
        Self::build_success("read", data)
    }

    /// An image read: base64 content and metadata.
    pub fn build_image_result(path: &str, base64_content: &str, metadata: &ImageMetadata) -> (r: JsonValue)
        ensures
            r@ == success_doc("read"@, JsonView::Object(seq![
                str_member("path"@, path@),
                str_member("type"@, "image"@),
                ("metadata"@, image_metadata_doc(*metadata)),
                str_member("content_base64"@, base64_content@),
            ])),
    {
        let mut md: Vec<(String, JsonValue)> = Vec::new();
        md.push(text("format", metadata.format.as_str()));
        md.push(uint("size", metadata.size as u64));
        if let Some(w) = metadata.width {
            md.push(uint("width", w as u64));
        }
        if let Some(h) = metadata.height {
            md.push(uint("height", h as u64));
        }
        if let Some(t) = &metadata.color_type {
            md.push(text("color_type", t.as_str()));
        }
        if let Some(a) = metadata.has_alpha {
            md.push(flag("has_alpha", a));
        }
        let mv = object(md);
        assert(mv@ == image_metadata_doc(*metadata)) by {
            if let JsonView::Object(x) = image_metadata_doc(*metadata) {
                assert(members_view(md@) =~= x);
            }
        }
        let mut m: Vec<(String, JsonValue)> = Vec::new();
        m.push(text("path", path));
        m.push(text("type", "image"));
        m.push(nested("metadata", mv));
        m.push(text("content_base64", base64_content));
        let data = object(m);
        assert(members_view(m@) =~= seq![
            str_member("path"@, path@),
            str_member("type"@, "image"@),
            ("metadata"@, image_metadata_doc(*metadata)),
            str_member("content_base64"@, base64_content@),
        ]);
        Self::build_success("read", data)
    }

    /// A binary file read as base64.
    pub fn build_binary_result(path: &str, base64_content: &str, size: usize) -> (r: JsonValue)
        ensures
            r@ == success_doc("read"@, JsonView::Object(seq![
                str_member("path"@, path@),
                str_member("type"@, "binary"@),
                uint_member("size"@, size as u64),
                str_member("encoding"@, "base64"@),
                str_member("content_base64"@, base64_content@),
            ])),
    {
        let mut m: Vec<(String, JsonValue)> = Vec::new();
        m.push(text("path", path));
        m.push(text("type", "binary"));
        m.push(uint("size", size as u64));
        m.push(text("encoding", "base64"));
        m.push(text("content_base64", base64_content));
        let data = object(m);
        assert(members_view(m@) =~= seq![
            str_member("path"@, path@),
            str_member("type"@, "binary"@),
            uint_member("size"@, size as u64),
            str_member("encoding"@, "base64"@),
            str_member("content_base64"@, base64_content@),
        ]);
        Self::build_success("read", data)
    }

    /// The error for a binary file too large to encode.
    pub fn build_binary_too_large_error(path: &str, size: usize, preview: &str) -> (r: JsonValue)
        ensures
            r@ == error_doc(
                "read"@,
                "FILE_TOO_LARGE_FOR_BASE64"@,
                "Binary file too large for base64 encoding: "@ + path@,
                too_large_details(size as nat, preview@),
            ),
    {
        let mut d: Vec<char> = Vec::new();
        extend_str(&mut d, "File type: application/octet-stream\nSize: ");
        let digits = decimal_chars(size as u64);
        extend_chars(&mut d, digits.as_slice());
        extend_str(&mut d, " bytes\nRecommendation: Use specific file handler or process in chunks\nPreview: ");
        extend_str(&mut d, preview);
        let details = string_of(d.as_slice());
        let mut msg: Vec<char> = Vec::new();
        extend_str(&mut msg, "Binary file too large for base64 encoding: ");
        extend_str(&mut msg, path);
        let message = string_of(msg.as_slice());
        Self::build_error("read", "FILE_TOO_LARGE_FOR_BASE64", message.as_str(), details.as_str())
    }

    /// The outcome of an edit.
    pub fn build_edit_result(path: &str, replacements: usize) -> (r: JsonValue)
        ensures
            r@ == success_doc("edit"@, JsonView::Object(seq![str_member("path"@, path@), uint_member("replacements"@, replacements as u64)])),
    {
        let mut m: Vec<(String, JsonValue)> = Vec::new();
        m.push(text("path", path));
        m.push(uint("replacements", replacements as u64));
        let data = object(m);
        assert(members_view(m@) =~= seq![str_member("path"@, path@), uint_member("replacements"@, replacements as u64)]);
        Self::build_success("edit", data)
    }

    /// A head or tail read.
    pub fn build_head_tail_result(path: &str, lines: Vec<String>, mode: &str, count: usize, total_lines: usize) -> (r: JsonValue)
        ensures
            r@ == success_doc("head_tail"@, head_tail_data(path@, lines@.map_values(|x: String| x@), mode@, count, total_lines)),
    {
        let arr = strings_value(&lines);
        let ghost av = arr@;
        let mut m: Vec<(String, JsonValue)> = Vec::new();
        m.push(text("path", path));
        m.push(text("mode", mode));
        m.push(uint("count", count as u64));
        m.push(uint("total_lines", total_lines as u64));
        m.push(nested("lines", arr));
        let data = object(m);
        assert(data@ == head_tail_data(path@, lines@.map_values(|x: String| x@), mode@, count, total_lines)) by {
            if let JsonView::Object(x) = head_tail_data(path@, lines@.map_values(|x: String| x@), mode@, count, total_lines) {
                assert(members_view(m@) =~= x);
            }
        }
        Self::build_success("head_tail", data)
    }
}

impl Default for JsonBuilder {
    fn default() -> (r: Self) {
        JsonBuilder
    }
}

/// A success document gives back what it was built from: its status is
/// `success`, its tool the tool's name and its data the data.
pub proof fn law_success_doc_reads_back(tool: Seq<char>, data: JsonView)
    ensures
        jstr(jget(success_doc(tool, data), "status"@)) == Some("success"@),
        jstr(jget(success_doc(tool, data), "tool"@)) == Some(tool),
        jget(success_doc(tool, data), "data"@) == Some(data),
{
    reveal_strlit("status");
    reveal_strlit("tool");
    reveal_strlit("data");
    if let JsonView::Object(m) = success_doc(tool, data) {
        assert(m.drop_first()[0] == m[1]);
        assert(m.drop_first().drop_first()[0] == m[2]);
        assert(m.drop_first().drop_first().drop_first().len() == 0);
        assert("status"@.len() != "tool"@.len());
        assert("status"@.len() != "data"@.len());
        assert("tool"@[0] != "data"@[0]);
        assert("tool"@ != "data"@);
        let m1 = m.drop_first();
        let m2 = m1.drop_first();
        assert(crate::tools::domain::json_value::member(m1, "tool"@) == Some(JsonView::Str(tool)));
        assert(crate::tools::domain::json_value::member(m2, "data"@) == Some(data));
        assert(crate::tools::domain::json_value::member(m1, "data"@) == Some(data));
    }
}

} // verus!
