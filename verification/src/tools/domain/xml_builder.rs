//! XML responses of the tools, with one schema for all of them:
//! `<tool_result name=".." status="success|error">..</tool_result>`.
//!
//! Text and attribute values are escaped with quick-xml's escaping, exactly
//! as its writer does for text events and attributes; the element structure
//! is assembled here.
use vstd::prelude::*;
use crate::model::{CommandResult, FileMetadata, FileType};
use crate::text::{chars_of, decimal, decimal_chars, extend_chars, extend_str, lines, lines_of, string_of, utf8_len};

verus! {

/// quick-xml's text escaping (`escape::escape`) of one character.
pub open spec fn xml_text_escape_char(c: char) -> Seq<char> {
    if c == '<' {
        "&lt;"@
    } else if c == '>' {
        "&gt;"@
    } else if c == '&' {
        "&amp;"@
    } else if c == '\'' {
        "&apos;"@
    } else if c == '"' {
        "&quot;"@
    } else if c == '\r' {
        "&#13;"@
    } else {
        seq![c]
    }
}

/// quick-xml's attribute-value escaping of one character: the text escapes
/// plus line feed and tab.
pub open spec fn xml_attr_escape_char(c: char) -> Seq<char> {
    if c == '\n' {
        "&#10;"@
    } else if c == '\t' {
        "&#9;"@
    } else {
        xml_text_escape_char(c)
    }
}

/// quick-xml's text escaping of a string.
pub open spec fn xml_text_escape(s: Seq<char>) -> Seq<char>
    decreases s.len(),
{
    if s.len() == 0 {
        Seq::empty()
    } else {
        xml_text_escape(s.drop_last()) + xml_text_escape_char(s.last())
    }
}

/// quick-xml's attribute-value escaping of a string.
pub open spec fn xml_attr_escape(s: Seq<char>) -> Seq<char>
    decreases s.len(),
{
    if s.len() == 0 {
        Seq::empty()
    } else {
        xml_attr_escape(s.drop_last()) + xml_attr_escape_char(s.last())
    }
}

/// `quick_xml::escape::escape`: replaces `<`, `>`, `&`, `'`, `"` and `\r` by
/// `&lt;`, `&gt;`, `&amp;`, `&apos;`, `&quot;` and `&#13;` (the table in its
/// documentation); other characters are kept.  `BytesText::new` escapes with it.
#[verifier::external_body]
fn quick_xml_escape(s: &str) -> (r: String)
    ensures
        r@ == xml_text_escape(s@),
{
    quick_xml::escape::escape(s).into_owned()
}

/// The value of `quick_xml::events::attributes::Attribute::from((key, value))`:
/// the escaping of `escape::escape` plus `\n` to `&#10;` and `\t` to `&#9;`
/// (the table of `escape_attribute`, which that conversion applies).
#[verifier::external_body]
fn quick_xml_attribute_value(key: &str, value: &str) -> (r: String)
    ensures
        r@ == xml_attr_escape(value@),
{
    quick_xml::events::attributes::Attribute::from((key, value)).value.into_owned()
}

/// The local escaping of special XML characters: `&`, `<`, `>`, `"`, `'`.
pub open spec fn escape_char_local(c: char) -> Seq<char> {
    if c == '&' {
        "&amp;"@
    } else if c == '<' {
        "&lt;"@
    } else if c == '>' {
        "&gt;"@
    } else if c == '"' {
        "&quot;"@
    } else if c == '\'' {
        "&apos;"@
    } else {
        seq![c]
    }
}

/// Escaping of `&`, `<`, `>`, `"` and `'` into their entities.
pub open spec fn escaped(s: Seq<char>) -> Seq<char>
    decreases s.len(),
{
    if s.len() == 0 {
        Seq::empty()
    } else {
        escaped(s.drop_last()) + escape_char_local(s.last())
    }
}

/// Escaped text holds no markup: no `<`, `>`, `"` or `'` remains, and
/// every `&` starts an entity.
pub proof fn law_escaped_has_no_markup(s: Seq<char>)
    ensures
        forall|i: int|
            0 <= i < escaped(s).len() ==> (#[trigger] escaped(s)[i]) != '<' && escaped(s)[i] != '>' && escaped(s)[i]
                != '"' && escaped(s)[i] != '\'',
    decreases s.len(),
{
    reveal_strlit("&amp;");
    reveal_strlit("&lt;");
    reveal_strlit("&gt;");
    reveal_strlit("&quot;");
    reveal_strlit("&apos;");
    if s.len() > 0 {
        law_escaped_has_no_markup(s.drop_last());
        let p = escaped(s.drop_last());
        let e = escape_char_local(s.last());
        assert(escaped(s) == p + e);
        assert forall|i: int| 0 <= i < escaped(s).len() implies (#[trigger] escaped(s)[i]) != '<' && escaped(s)[i]
            != '>' && escaped(s)[i] != '"' && escaped(s)[i] != '\'' by {
            if i >= p.len() {
                assert(escaped(s)[i] == e[i - p.len()]);
            } else {
                assert(escaped(s)[i] == p[i]);
            }
        }
    }
}

/// Escape special XML characters: `&`, `<`, `>`, `"` and `'`.
pub fn escape_xml(s: &str) -> (r: String)
    ensures
        r@ == escaped(s@),
{
    let v = chars_of(s);
    let mut out: Vec<char> = Vec::new();
    let mut i: usize = 0;
    while i < v.len()
        invariant
            i <= v.len(),
            v@ == s@,
            out@ == escaped(v@.take(i as int)),
        decreases v.len() - i,
    {
        let c = v[i];
        if c == '&' {
            extend_str(&mut out, "&amp;");
        } else if c == '<' {
            extend_str(&mut out, "&lt;");
        } else if c == '>' {
            extend_str(&mut out, "&gt;");
        } else if c == '"' {
            extend_str(&mut out, "&quot;");
        } else if c == '\'' {
            extend_str(&mut out, "&apos;");
        } else {
            out.push(c);
        }
        assert(v@.take(i + 1).drop_last() =~= v@.take(i as int));
        i += 1;
    }
    assert(v@.take(v.len() as int) =~= v@);
    string_of(out.as_slice())
}

/// Builds the tool XML responses.
pub struct XmlBuilder;

/// A grep match as reported in XML.
#[derive(Debug, Clone)]
pub struct GrepMatch {
    pub file_path: String,
    pub line_number: usize,
    pub line_content: String,
}

/// The success response.
pub open spec fn success_xml(tool_name: Seq<char>, content: Seq<char>, summary: Seq<char>) -> Seq<char> {
    "<tool_result name=\""@ + xml_attr_escape(tool_name) + "\" status=\"success\">"@
        + content + "<summary>"@ + xml_text_escape(summary)
        + "</summary></tool_result>"@
}

/// The error response.
pub open spec fn error_xml(
    tool_name: Seq<char>,
    error_code: Seq<char>,
    message: Seq<char>,
    details: Seq<char>,
) -> Seq<char> {
    "<tool_result name=\""@ + xml_attr_escape(tool_name) + "\" status=\"error\">"@
        + "<error_code>"@ + xml_text_escape(error_code) + "</error_code>"@ + "<message>"@
        + xml_text_escape(message) + "</message>"@ + "<details>"@ + xml_text_escape(details)
        + "</details>"@ + "</tool_result>"@
}

/// `"true"` or `"false"`.
pub open spec fn bool_text(b: bool) -> Seq<char> {
    if b { "true"@ } else { "false"@ }
}

/// The name of a file kind in the XML output.
pub open spec fn file_type_text(t: FileType) -> Seq<char> {
    match t {
        FileType::File => "file"@,
        FileType::Directory => "directory"@,
        FileType::Symlink => "symlink"@,
        FileType::Other => "other"@,
    }
}

/// Decimal rendering of a signed integer (as `{}` formats it).
pub open spec fn signed_decimal(i: int) -> Seq<char> {
    if i < 0 { seq!['-'] + decimal((-i) as nat) } else { decimal(i as nat) }
}

/// Appends `"true"` or `"false"`.
fn push_bool(out: &mut Vec<char>, b: bool)
    ensures
        final(out)@ == old(out)@ + bool_text(b),
{
    if b {
        extend_str(out, "true");
    } else {
        extend_str(out, "false");
    }
}

/// Appends the decimal rendering of `n`.
fn push_decimal(out: &mut Vec<char>, n: u64)
    ensures
        final(out)@ == old(out)@ + decimal(n as nat),
{
    let d = decimal_chars(n);
    extend_chars(out, d.as_slice());
}

/// Appends the decimal rendering of a signed `i`.
fn push_signed(out: &mut Vec<char>, i: i32)
    ensures
        final(out)@ == old(out)@ + signed_decimal(i as int),
{
    if i < 0 {
        out.push('-');
        let m: i64 = -(i as i64);
        push_decimal(out, m as u64);
        assert(final(out)@ =~= old(out)@ + signed_decimal(i as int)) by {
            assert((m as u64) as nat == (-(i as int)) as nat);
        };
    } else {
        push_decimal(out, i as u64);
    }
}

/// Appends the name of a file kind.
fn push_file_type(out: &mut Vec<char>, t: FileType)
    ensures
        final(out)@ == old(out)@ + file_type_text(t),
{
    match t {
        FileType::File => extend_str(out, "file"),
        FileType::Directory => extend_str(out, "directory"),
        FileType::Symlink => extend_str(out, "symlink"),
        FileType::Other => extend_str(out, "other"),
    }
}

/// Appends the text-escaped form of `s`.
fn push_text_escaped(out: &mut Vec<char>, s: &str)
    ensures
        final(out)@ == old(out)@ + xml_text_escape(s@),
{
    let e = quick_xml_escape(s);
    extend_str(out, e.as_str());
}

/// Appends the locally escaped form of `s`.
fn push_escaped(out: &mut Vec<char>, s: &str)
    ensures
        final(out)@ == old(out)@ + escaped(s@),
{
    let e = escape_xml(s);
    extend_str(out, e.as_str());
}

/// Number of entries of the given kind.
pub open spec fn count_kind(es: Seq<FileMetadata>, t: FileType) -> nat
    decreases es.len(),
{
    if es.len() == 0 {
        0
    } else {
        count_kind(es.drop_last(), t) + if es.last().file_type == t { 1nat } else { 0nat }
    }
}

proof fn lemma_count_kind_le(es: Seq<FileMetadata>, t: FileType)
    ensures
        count_kind(es, t) <= es.len(),
    decreases es.len(),
{
    if es.len() > 0 {
        lemma_count_kind_le(es.drop_last(), t);
    }
}

/// XML of one directory entry.
pub open spec fn entry_xml(e: FileMetadata) -> Seq<char> {
    "<entry>"@ + "<name>"@ + escaped(e.name@) + "</name>"@ + "<type>"@ + file_type_text(e.file_type)
        + "</type>"@ + (if e.file_type == FileType::File {
        "<size>"@ + decimal(e.size as nat) + "</size>"@
    } else {
        Seq::empty()
    }) + "<permissions>"@ + escaped(e.permissions@) + "</permissions>"@ + "<modified>"@
        + e.modified@ + "</modified>"@ + "<hidden>"@ + bool_text(e.is_hidden) + "</hidden>"@
        + "</entry>"@
}

/// Appends the XML of one directory entry.
#[verifier::spinoff_prover]
#[verifier::rlimit(50)]
fn push_entry(out: &mut Vec<char>, e: &FileMetadata)
    ensures
        final(out)@ == old(out)@ + entry_xml(*e),
{
    let ghost start = out@;
    extend_str(out, "<entry>");
    extend_str(out, "<name>");
    push_escaped(out, e.name.as_str());
    extend_str(out, "</name>");
    extend_str(out, "<type>");
    push_file_type(out, e.file_type);
    extend_str(out, "</type>");
    let ghost mid = out@;
    if e.file_type == FileType::File {
        extend_str(out, "<size>");
        push_decimal(out, e.size);
        extend_str(out, "</size>");
    }
    let ghost sized = out@;
    assert(sized =~= mid + if e.file_type == FileType::File {
        "<size>"@ + decimal(e.size as nat) + "</size>"@
    } else {
        Seq::empty()
    });
    extend_str(out, "<permissions>");
    push_escaped(out, e.permissions.as_str());
    extend_str(out, "</permissions>");
    extend_str(out, "<modified>");
    extend_str(out, e.modified.as_str());
    extend_str(out, "</modified>");
    extend_str(out, "<hidden>");
    push_bool(out, e.is_hidden);
    extend_str(out, "</hidden>");
    extend_str(out, "</entry>");
    assert(out@ =~= start + entry_xml(*e));
}

/// XML of a list of directory entries.
pub open spec fn entries_xml(es: Seq<FileMetadata>) -> Seq<char>
    decreases es.len(),
{
    if es.len() == 0 {
        Seq::empty()
    } else {
        entries_xml(es.drop_last()) + entry_xml(es.last())
    }
}

/// Content of the list tool's response.
pub open spec fn directory_content(path: Seq<char>, es: Seq<FileMetadata>) -> Seq<char> {
    "<directory path=\""@ + escaped(path) + "\">"@ + entries_xml(es) + "</directory>"@
}

/// Summary of the list tool's response.
pub open spec fn directory_summary(es: Seq<FileMetadata>) -> Seq<char> {
    decimal(count_kind(es, FileType::File)) + " files, "@ + decimal(
        count_kind(es, FileType::Directory),
    ) + " directories"@
}

/// Content of the read tool's response.
pub open spec fn file_content_content(
    path: Seq<char>,
    content: Seq<char>,
    offset: Option<usize>,
    limit: Option<usize>,
) -> Seq<char> {
    "<file path=\""@ + escaped(path) + "\">"@ + (if offset is Some || limit is Some {
        "<range>"@ + (match offset {
            Some(o) => "<offset>"@ + decimal(o as nat) + "</offset>"@,
            None => Seq::empty(),
        }) + (match limit {
            Some(l) => "<limit>"@ + decimal(l as nat) + "</limit>"@,
            None => Seq::empty(),
        }) + "</range>"@
    } else {
        Seq::empty()
    }) + "<content>"@ + escaped(content) + "</content>"@ + "<size>"@ + decimal(utf8_len(content))
        + "</size>"@ + "</file>"@
}

/// Summary of the read tool's response.
pub open spec fn file_content_summary(content: Seq<char>) -> Seq<char> {
    "Read "@ + decimal(lines(content).len()) + " lines ("@ + decimal(utf8_len(content))
        + " bytes)"@
}

/// XML of a list of matched file paths.
pub open spec fn glob_files_xml(ms: Seq<String>) -> Seq<char>
    decreases ms.len(),
{
    if ms.len() == 0 {
        Seq::empty()
    } else {
        glob_files_xml(ms.drop_last()) + "<file>"@ + escaped(ms.last()@) + "</file>"@
    }
}

/// XML of one grep match.
pub open spec fn grep_match_xml(m: GrepMatch) -> Seq<char> {
    "<match>"@ + "<file>"@ + escaped(m.file_path@) + "</file>"@ + "<line>"@ + decimal(
        m.line_number as nat,
    ) + "</line>"@ + "<content>"@ + escaped(m.line_content@) + "</content>"@ + "</match>"@
}

/// Appends the XML of one grep match.
fn push_grep_match(out: &mut Vec<char>, m: &GrepMatch)
    ensures
        final(out)@ == old(out)@ + grep_match_xml(*m),
{
    let ghost start = out@;
    extend_str(out, "<match>");
    extend_str(out, "<file>");
    push_escaped(out, m.file_path.as_str());
    extend_str(out, "</file>");
    extend_str(out, "<line>");
    push_decimal(out, m.line_number as u64);
    extend_str(out, "</line>");
    extend_str(out, "<content>");
    push_escaped(out, m.line_content.as_str());
    extend_str(out, "</content>");
    extend_str(out, "</match>");
    assert(out@ =~= start + grep_match_xml(*m));
}

/// XML of a list of grep matches.
pub open spec fn grep_matches_xml(ms: Seq<GrepMatch>) -> Seq<char>
    decreases ms.len(),
{
    if ms.len() == 0 {
        Seq::empty()
    } else {
        grep_matches_xml(ms.drop_last()) + grep_match_xml(ms.last())
    }
}

/// `{:?}` of an optional exit code: `Some(<code>)` or `None`.
pub open spec fn exit_code_debug(c: Option<i32>) -> Seq<char> {
    match c {
        Some(x) => "Some("@ + signed_decimal(x as int) + ")"@,
        None => "None"@,
    }
}

/// Content of the bash tool's response.
pub open spec fn command_content(command: Seq<char>, r: CommandResult) -> Seq<char> {
    "<command executed=\""@ + escaped(command) + "\">"@ + (match r.exit_code {
        Some(c) => "<exit_code>"@ + signed_decimal(c as int) + "</exit_code>"@,
        None => Seq::empty(),
    }) + "<success>"@ + bool_text(r.success) + "</success>"@ + "<duration_ms>"@ + decimal(
        r.duration_ms as nat,
    ) + "</duration_ms>"@ + (if r.stdout@.len() > 0 {
        "<stdout>"@ + escaped(r.stdout@) + "</stdout>"@
    } else {
        Seq::empty()
    }) + (if r.stderr@.len() > 0 {
        "<stderr>"@ + escaped(r.stderr@) + "</stderr>"@
    } else {
        Seq::empty()
    }) + "</command>"@
}

/// Summary of the bash tool's response.
pub open spec fn command_summary(r: CommandResult) -> Seq<char> {
    if r.success {
        "Command completed successfully ("@ + decimal(r.duration_ms as nat) + "ms)"@
    } else {
        "Command failed with exit code "@ + exit_code_debug(r.exit_code) + " ("@ + decimal(
            r.duration_ms as nat,
        ) + "ms)"@
    }
}

/// Content of the stat tool's response.
pub open spec fn stat_content(m: FileMetadata) -> Seq<char> {
    "<file path=\""@ + escaped(m.path@) + "\">"@ + "<name>"@ + escaped(m.name@) + "</name>"@
        + "<type>"@ + file_type_text(m.file_type) + "</type>"@ + (if m.file_type == FileType::File {
        "<size>"@ + decimal(m.size as nat) + "</size>"@
    } else {
        Seq::empty()
    }) + "<permissions>"@ + escaped(m.permissions@) + "</permissions>"@ + "<modified>"@
        + m.modified@ + "</modified>"@ + "<hidden>"@ + bool_text(m.is_hidden) + "</hidden>"@
        + "<readable>"@ + bool_text(m.is_readable) + "</readable>"@ + "<writable>"@ + bool_text(
        m.is_writable,
    ) + "</writable>"@ + "</file>"@
}

impl XmlBuilder {
    /// Create a new XML builder.
    pub fn new() -> (r: Self) {
        XmlBuilder
    }

    /// Success response: `<tool_result name=".." status="success">` holding
    /// the tool-specific XML content as given and an (escaped) `<summary>`.
    pub fn build_success(tool_name: &str, content: &str, summary: &str) -> (r: String)
        ensures
            r@ == success_xml(tool_name@, content@, summary@),
    {
        let mut out: Vec<char> = Vec::new();
        extend_str(&mut out, "<tool_result name=\"");
        let name = quick_xml_attribute_value("name", tool_name);
        extend_str(&mut out, name.as_str());
        extend_str(&mut out, "\" status=\"success\">");
        extend_str(&mut out, content);
        extend_str(&mut out, "<summary>");
        push_text_escaped(&mut out, summary);
        extend_str(&mut out, "</summary></tool_result>");
        string_of(out.as_slice())
    }

    /// Error response: `<tool_result name=".." status="error">` holding the
    /// error code, message and details.
    pub fn build_error(tool_name: &str, error_code: &str, message: &str, details: &str) -> (r: String)
        ensures
            r@ == error_xml(tool_name@, error_code@, message@, details@),
    {
        let mut out: Vec<char> = Vec::new();
        extend_str(&mut out, "<tool_result name=\"");
        let name = quick_xml_attribute_value("name", tool_name);
        extend_str(&mut out, name.as_str());
        extend_str(&mut out, "\" status=\"error\">");
        extend_str(&mut out, "<error_code>");
        push_text_escaped(&mut out, error_code);
        extend_str(&mut out, "</error_code>");
        extend_str(&mut out, "<message>");
        push_text_escaped(&mut out, message);
        extend_str(&mut out, "</message>");
        extend_str(&mut out, "<details>");
        push_text_escaped(&mut out, details);
        extend_str(&mut out, "</details>");
        extend_str(&mut out, "</tool_result>");
        string_of(out.as_slice())
    }
}

} // verus!

verus! {

impl XmlBuilder {
    /// Directory listing for the list tool, with a summary counting files
    /// and directories.
    pub fn build_directory_xml(path: &str, entries: Vec<FileMetadata>) -> (r: String)
        ensures
            r@ == success_xml("list"@, directory_content(path@, entries@), directory_summary(entries@)),
    {
        let mut content: Vec<char> = Vec::new();
        extend_str(&mut content, "<directory path=\"");
        push_escaped(&mut content, path);
        extend_str(&mut content, "\">");
        let ghost head = content@;
        let mut files: usize = 0;
        let mut dirs: usize = 0;
        let mut i: usize = 0;
        while i < entries.len()
            invariant
                i <= entries.len(),
                content@ == head + entries_xml(entries@.take(i as int)),
                files == count_kind(entries@.take(i as int), FileType::File),
                dirs == count_kind(entries@.take(i as int), FileType::Directory),
            decreases entries.len() - i,
        {
            let e = &entries[i];
            proof {
                lemma_count_kind_le(entries@.take(i as int), FileType::File);
                lemma_count_kind_le(entries@.take(i as int), FileType::Directory);
            }
            push_entry(&mut content, e);
            if e.file_type == FileType::File {
                files = files + 1;
            }
            if e.file_type == FileType::Directory {
                dirs = dirs + 1;
            }
            proof {
                let t = entries@.take(i + 1);
                assert(t.drop_last() =~= entries@.take(i as int));
                assert(t.last() == entries@[i as int]);
                assert(content@ =~= head + entries_xml(t));
            }
            i += 1;
        }
        extend_str(&mut content, "</directory>");
        assert(entries@.take(entries.len() as int) =~= entries@);
        let mut summary: Vec<char> = Vec::new();
        push_decimal(&mut summary, files as u64);
        extend_str(&mut summary, " files, ");
        push_decimal(&mut summary, dirs as u64);
        extend_str(&mut summary, " directories");
        let c = string_of(content.as_slice());
        let s = string_of(summary.as_slice());
        Self::build_success("list", c.as_str(), s.as_str())
    }

    /// File content for the read tool: the (escaped) content, its byte size,
    /// the requested range if any, and a summary with line and byte counts.
    #[verifier::spinoff_prover]
    #[verifier::rlimit(60)]
    pub fn build_file_content_xml(path: &str, content: &str, offset: Option<usize>, limit: Option<usize>) -> (r:
        String)
        requires
            utf8_len(content@) <= usize::MAX,
        ensures
            r@ == success_xml(
                "read"@,
                file_content_content(path@, content@, offset, limit),
                file_content_summary(content@),
            ),
    {
        let mut x: Vec<char> = Vec::new();
        extend_str(&mut x, "<file path=\"");
        push_escaped(&mut x, path);
        extend_str(&mut x, "\">");
        if offset.is_some() || limit.is_some() {
            extend_str(&mut x, "<range>");
            if let Some(off) = offset {
                extend_str(&mut x, "<offset>");
                push_decimal(&mut x, off as u64);
                extend_str(&mut x, "</offset>");
            }
            if let Some(lim) = limit {
                extend_str(&mut x, "<limit>");
                push_decimal(&mut x, lim as u64);
                extend_str(&mut x, "</limit>");
            }
            extend_str(&mut x, "</range>");
        }
        extend_str(&mut x, "<content>");
        push_escaped(&mut x, content);
        extend_str(&mut x, "</content>");
        let size = crate::text::str_byte_len(content);
        extend_str(&mut x, "<size>");
        push_decimal(&mut x, size as u64);
        extend_str(&mut x, "</size>");
        extend_str(&mut x, "</file>");
        assert(x@ =~= file_content_content(path@, content@, offset, limit));
        let cv = chars_of(content);
        let ls = lines_of(cv.as_slice());
        assert(ls@.len() == lines(content@).len()) by {
            assert(crate::text::views(ls@).len() == ls@.len());
        };
        let mut summary: Vec<char> = Vec::new();
        extend_str(&mut summary, "Read ");
        push_decimal(&mut summary, ls.len() as u64);
        extend_str(&mut summary, " lines (");
        push_decimal(&mut summary, size as u64);
        extend_str(&mut summary, " bytes)");
        assert(summary@ =~= file_content_summary(content@));
        let c = string_of(x.as_slice());
        let s = string_of(summary.as_slice());
        Self::build_success("read", c.as_str(), s.as_str())
    }

    /// Matched paths for the glob tool.
    pub fn build_glob_result_xml(pattern: &str, matches: Vec<String>) -> (r: String)
        ensures
            r@ == success_xml(
                "glob"@,
                "<matches pattern=\""@ + escaped(pattern@) + "\">"@ + glob_files_xml(matches@)
                    + "</matches>"@,
                "Found "@ + decimal(matches@.len()) + " files matching pattern"@,
            ),
    {
        let mut x: Vec<char> = Vec::new();
        extend_str(&mut x, "<matches pattern=\"");
        push_escaped(&mut x, pattern);
        extend_str(&mut x, "\">");
        let ghost head = x@;
        let mut i: usize = 0;
        while i < matches.len()
            invariant
                i <= matches.len(),
                x@ == head + glob_files_xml(matches@.take(i as int)),
            decreases matches.len() - i,
        {
            extend_str(&mut x, "<file>");
            push_escaped(&mut x, matches[i].as_str());
            extend_str(&mut x, "</file>");
            proof {
                let t = matches@.take(i + 1);
                assert(t.drop_last() =~= matches@.take(i as int));
                assert(x@ =~= head + glob_files_xml(t));
            }
            i += 1;
        }
        assert(matches@.take(matches.len() as int) =~= matches@);
        extend_str(&mut x, "</matches>");
        let mut summary: Vec<char> = Vec::new();
        extend_str(&mut summary, "Found ");
        push_decimal(&mut summary, matches.len() as u64);
        extend_str(&mut summary, " files matching pattern");
        let c = string_of(x.as_slice());
        let s = string_of(summary.as_slice());
        Self::build_success("glob", c.as_str(), s.as_str())
    }

    /// Matches for the grep tool.
    pub fn build_grep_result_xml(pattern: &str, matches: Vec<GrepMatch>) -> (r: String)
        ensures
            r@ == success_xml(
                "grep"@,
                "<matches pattern=\""@ + escaped(pattern@) + "\">"@ + grep_matches_xml(matches@)
                    + "</matches>"@,
                "Found "@ + decimal(matches@.len()) + " matches"@,
            ),
    {
        let mut x: Vec<char> = Vec::new();
        extend_str(&mut x, "<matches pattern=\"");
        push_escaped(&mut x, pattern);
        extend_str(&mut x, "\">");
        let ghost head = x@;
        let mut i: usize = 0;
        while i < matches.len()
            invariant
                i <= matches.len(),
                x@ == head + grep_matches_xml(matches@.take(i as int)),
            decreases matches.len() - i,
        {
            push_grep_match(&mut x, &matches[i]);
            proof {
                let t = matches@.take(i + 1);
                assert(t.drop_last() =~= matches@.take(i as int));
                assert(t.last() == matches@[i as int]);
                assert(x@ =~= head + grep_matches_xml(t));
            }
            i += 1;
        }
        assert(matches@.take(matches.len() as int) =~= matches@);
        extend_str(&mut x, "</matches>");
        let mut summary: Vec<char> = Vec::new();
        extend_str(&mut summary, "Found ");
        push_decimal(&mut summary, matches.len() as u64);
        extend_str(&mut summary, " matches");
        let c = string_of(x.as_slice());
        let s = string_of(summary.as_slice());
        Self::build_success("grep", c.as_str(), s.as_str())
    }

    /// Command outcome for the bash tool.
    pub fn build_command_result_xml(command: &str, result: &CommandResult) -> (r: String)
        ensures
            r@ == success_xml("bash"@, command_content(command@, *result), command_summary(*result)),
    {
        let mut x: Vec<char> = Vec::new();
        extend_str(&mut x, "<command executed=\"");
        push_escaped(&mut x, command);
        extend_str(&mut x, "\">");
        let ghost p0 = x@;
        if let Some(code) = result.exit_code {
            extend_str(&mut x, "<exit_code>");
            push_signed(&mut x, code);
            extend_str(&mut x, "</exit_code>");
        }
        let ghost p1 = x@;
        assert(p1 =~= p0 + match result.exit_code {
            Some(c) => "<exit_code>"@ + signed_decimal(c as int) + "</exit_code>"@,
            None => Seq::empty(),
        });
        extend_str(&mut x, "<success>");
        push_bool(&mut x, result.success);
        extend_str(&mut x, "</success>");
        extend_str(&mut x, "<duration_ms>");
        push_decimal(&mut x, result.duration_ms);
        extend_str(&mut x, "</duration_ms>");
        let ghost p2 = x@;
        if !result.stdout.as_str().is_empty() {
            extend_str(&mut x, "<stdout>");
            push_escaped(&mut x, result.stdout.as_str());
            extend_str(&mut x, "</stdout>");
        }
        let ghost p3 = x@;
        assert(p3 =~= p2 + if result.stdout@.len() > 0 {
            "<stdout>"@ + escaped(result.stdout@) + "</stdout>"@
        } else {
            Seq::empty()
        });
        if !result.stderr.as_str().is_empty() {
            extend_str(&mut x, "<stderr>");
            push_escaped(&mut x, result.stderr.as_str());
            extend_str(&mut x, "</stderr>");
        }
        let ghost p4 = x@;
        assert(p4 =~= p3 + if result.stderr@.len() > 0 {
            "<stderr>"@ + escaped(result.stderr@) + "</stderr>"@
        } else {
            Seq::empty()
        });
        extend_str(&mut x, "</command>");
        assert(x@ =~= command_content(command@, *result));
        let mut summary: Vec<char> = Vec::new();
        if result.success {
            extend_str(&mut summary, "Command completed successfully (");
            push_decimal(&mut summary, result.duration_ms);
            extend_str(&mut summary, "ms)");
        } else {
            extend_str(&mut summary, "Command failed with exit code ");
            match result.exit_code {
                Some(code) => {
                    extend_str(&mut summary, "Some(");
                    push_signed(&mut summary, code);
                    extend_str(&mut summary, ")");
                },
                None => {
                    extend_str(&mut summary, "None");
                },
            }
            extend_str(&mut summary, " (");
            push_decimal(&mut summary, result.duration_ms);
            extend_str(&mut summary, "ms)");
        }
        assert(summary@ =~= command_summary(*result));
        let c = string_of(x.as_slice());
        let s = string_of(summary.as_slice());
        Self::build_success("bash", c.as_str(), s.as_str())
    }

    /// Write outcome for the write tool.
    pub fn build_write_result_xml(path: &str, bytes_written: usize) -> (r: String)
        ensures
            r@ == success_xml(
                "write"@,
                "<file path=\""@ + escaped(path@) + "\"><bytes_written>"@ + decimal(
                    bytes_written as nat,
                ) + "</bytes_written></file>"@,
                "Successfully wrote "@ + decimal(bytes_written as nat) + " bytes to "@ + path@,
            ),
    {
        let mut x: Vec<char> = Vec::new();
        extend_str(&mut x, "<file path=\"");
        push_escaped(&mut x, path);
        extend_str(&mut x, "\"><bytes_written>");
        push_decimal(&mut x, bytes_written as u64);
        extend_str(&mut x, "</bytes_written></file>");
        let mut summary: Vec<char> = Vec::new();
        extend_str(&mut summary, "Successfully wrote ");
        push_decimal(&mut summary, bytes_written as u64);
        extend_str(&mut summary, " bytes to ");
        extend_str(&mut summary, path);
        let c = string_of(x.as_slice());
        let s = string_of(summary.as_slice());
        Self::build_success("write", c.as_str(), s.as_str())
    }

    /// Metadata for the stat tool.
    pub fn build_stat_result_xml(metadata: &FileMetadata) -> (r: String)
        ensures
            r@ == success_xml("stat"@, stat_content(*metadata), "File metadata: "@ + metadata.name@),
    {
        let mut x: Vec<char> = Vec::new();
        extend_str(&mut x, "<file path=\"");
        push_escaped(&mut x, metadata.path.as_str());
        extend_str(&mut x, "\">");
        extend_str(&mut x, "<name>");
        push_escaped(&mut x, metadata.name.as_str());
        extend_str(&mut x, "</name>");
        extend_str(&mut x, "<type>");
        push_file_type(&mut x, metadata.file_type);
        extend_str(&mut x, "</type>");
        let ghost q0 = x@;
        if metadata.file_type == FileType::File {
            extend_str(&mut x, "<size>");
            push_decimal(&mut x, metadata.size);
            extend_str(&mut x, "</size>");
        }
        assert(x@ =~= q0 + if metadata.file_type == FileType::File {
            "<size>"@ + decimal(metadata.size as nat) + "</size>"@
        } else {
            Seq::empty()
        });
        extend_str(&mut x, "<permissions>");
        push_escaped(&mut x, metadata.permissions.as_str());
        extend_str(&mut x, "</permissions>");
        extend_str(&mut x, "<modified>");
        extend_str(&mut x, metadata.modified.as_str());
        extend_str(&mut x, "</modified>");
        extend_str(&mut x, "<hidden>");
        push_bool(&mut x, metadata.is_hidden);
        extend_str(&mut x, "</hidden>");
        extend_str(&mut x, "<readable>");
        push_bool(&mut x, metadata.is_readable);
        extend_str(&mut x, "</readable>");
        extend_str(&mut x, "<writable>");
        push_bool(&mut x, metadata.is_writable);
        extend_str(&mut x, "</writable>");
        extend_str(&mut x, "</file>");
        assert(x@ =~= stat_content(*metadata));
        let mut summary: Vec<char> = Vec::new();
        extend_str(&mut summary, "File metadata: ");
        extend_str(&mut summary, metadata.name.as_str());
        let c = string_of(x.as_slice());
        let s = string_of(summary.as_slice());
        Self::build_success("stat", c.as_str(), s.as_str())
    }
}

} // verus!
