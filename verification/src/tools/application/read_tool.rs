//! Read tool: reads and validates its arguments, selects the requested
//! lines of text files, describes PDFs, images and other binary files, and
//! answers with the content.  Reading the file system is left to the caller.
use vstd::prelude::*;
use base64::Engine;
use crate::text::{
    chars_of, clone_lines, decimal, decimal_chars, extend_chars, extend_str, join, join_chars, lines, lines_of,
    opt_chars, string_of, utf8_fits, utf8_len, views,
};
use crate::tools::{truncate_output, truncated};
use crate::tools::application::pdf_limits::{pdf_within_limits, within_pdf_limits};
use crate::tools::domain::file_type::{FileCategory, FileTypeDetector, MAX_BASE64_SIZE};
use crate::tools::domain::json_builder::{
    error_doc, file_content_data, image_metadata_doc, pdf_data, success_doc, ImageMetadata, JsonBuilder, PdfMetadata,
};
use crate::tools::domain::json_value::{jget, jstr, ju64, JsonValue, JsonView};
use crate::tools::domain::validation::{failure_message, path_error, range_error, validate_path, validate_read_range};

verus! {

/// Read tool: reads files with optional line ranges.
pub struct ReadTool;

/// Arguments of a read.
#[derive(Debug)]
pub struct ReadArgs {
    pub path: String,
    /// Lines to skip.
    pub offset: Option<usize>,
    /// Most lines to return.
    pub limit: Option<usize>,
}

/// A `u64` argument as a `usize`.
pub open spec fn as_size(v: Option<u64>) -> Option<usize> {
    match v {
        Some(x) => Some(x as usize),
        None => None,
    }
}

/// What the read tool makes of its arguments: a valid path, and an offset
/// and limit within range.
pub open spec fn read_parse(v: JsonView) -> Result<(Seq<char>, Option<usize>, Option<usize>), Seq<char>> {
    match jstr(jget(v, "path"@)) {
        None => Err("Missing 'path' argument"@),
        Some(p) => {
            let o = as_size(ju64(jget(v, "offset"@)));
            let l = as_size(ju64(jget(v, "limit"@)));
            if path_error(p) is Some {
                Err(path_error(p)->0)
            } else if range_error(o, l) is Some {
                Err(range_error(o, l)->0)
            } else {
                Ok((p, o, l))
            }
        },
    }
}

/// The lines selected by an offset (lines skipped) and a limit (most lines kept).
pub open spec fn selected_lines(ls: Seq<Seq<char>>, offset: Option<usize>, limit: Option<usize>) -> Seq<Seq<char>> {
    let a = match offset {
        Some(o) => if o <= ls.len() { ls.skip(o as int) } else { Seq::empty() },
        None => ls,
    };
    match limit {
        Some(l) => if l <= a.len() { a.take(l as int) } else { a },
        None => a,
    }
}

/// The text returned for a range: the whole content when no range is
/// given, else the selected lines joined by line feeds.
pub open spec fn ranged_content(content: Seq<char>, offset: Option<usize>, limit: Option<usize>) -> Seq<char> {
    if offset is None && limit is None {
        content
    } else {
        join(selected_lines(lines(content), offset, limit), "\n"@)
    }
}

/// The selected content of a file and its total number of lines.
#[derive(Debug)]
pub struct FileReadResult {
    pub content: String,
    pub total_lines: usize,
}

/// Big-endian value of four bytes.
pub open spec fn be_u32(a: u8, b: u8, c: u8, d: u8) -> u32 {
    (a as int * 16777216 + b as int * 65536 + c as int * 256 + d as int) as u32
}

/// Name of a PNG colour type.
pub open spec fn png_color_name(t: u8) -> Seq<char> {
    if t == 0 {
        "Grayscale"@
    } else if t == 2 {
        "RGB"@
    } else if t == 3 {
        "Indexed"@
    } else if t == 4 {
        "Grayscale with Alpha"@
    } else if t == 6 {
        "RGBA"@
    } else {
        "Unknown"@
    }
}

/// The metadata read from an image's bytes: for PNG, the width and height
/// of its header (from 24 bytes on) and its colour type (from 26 bytes on);
/// for JPEG, the YCbCr colour type; nothing more for other formats.
pub open spec fn image_metadata_ok(data: Seq<u8>, format: Seq<char>, m: ImageMetadata) -> bool {
    &&& m.format@ == format
    &&& m.size == data.len()
    &&& if format == "png"@ {
        &&& m.width == (if data.len() >= 24 { Some(be_u32(data[16], data[17], data[18], data[19])) } else { None })
        &&& m.height == (if data.len() >= 24 { Some(be_u32(data[20], data[21], data[22], data[23])) } else { None })
        &&& opt_chars(m.color_type) == (if data.len() >= 26 { Some(png_color_name(data[25])) } else { None })
        &&& m.has_alpha == (if data.len() >= 26 { Some(data[25] == 4 || data[25] == 6) } else { None })
    } else if format == "jpeg"@ || format == "jpg"@ {
        &&& m.width is None && m.height is None && m.has_alpha is None
        &&& opt_chars(m.color_type) == Some("YCbCr"@)
    } else {
        m.width is None && m.height is None && m.color_type is None && m.has_alpha is None
    }
}

/// Upper-case hexadecimal digit.
pub open spec fn hex_digit(d: int) -> char {
    seq!['0', '1', '2', '3', '4', '5', '6', '7', '8', '9', 'A', 'B', 'C', 'D', 'E', 'F'][d]
}

/// A byte as two upper-case hexadecimal digits.
pub open spec fn hex_byte(b: u8) -> Seq<char> {
    seq![hex_digit(b as int / 16), hex_digit(b as int % 16)]
}

/// The first `max` bytes in hexadecimal, separated by spaces.
pub open spec fn hex_preview_of(data: Seq<u8>, max: nat) -> Seq<char> {
    let n = if data.len() <= max { data.len() } else { max };
    join(data.take(n as int).map_values(|b: u8| hex_byte(b)), " "@)
}

/// The standard base64 alphabet.
pub open spec fn b64_char(i: int) -> char {
    seq![
        'A', 'B', 'C', 'D', 'E', 'F', 'G', 'H', 'I', 'J', 'K', 'L', 'M', 'N', 'O', 'P', 'Q', 'R', 'S', 'T', 'U',
        'V', 'W', 'X', 'Y', 'Z', 'a', 'b', 'c', 'd', 'e', 'f', 'g', 'h', 'i', 'j', 'k', 'l', 'm', 'n', 'o', 'p',
        'q', 'r', 's', 't', 'u', 'v', 'w', 'x', 'y', 'z', '0', '1', '2', '3', '4', '5', '6', '7', '8', '9', '+',
        '/',
    ][i]
}

/// Standard base64 with padding (RFC 4648): each group of three bytes
/// gives four characters, a final group of one or two bytes is padded with `=`.
pub open spec fn base64_of(s: Seq<u8>) -> Seq<char>
    decreases s.len(),
{
    if s.len() == 0 {
        Seq::empty()
    } else if s.len() == 1 {
        seq![b64_char(s[0] as int / 4), b64_char((s[0] % 4) * 16), '=', '=']
    } else if s.len() == 2 {
        seq![b64_char(s[0] as int / 4), b64_char((s[0] % 4) * 16 + s[1] / 16), b64_char((s[1] % 16) * 4), '=']
    } else {
        seq![
            b64_char(s[0] as int / 4),
            b64_char((s[0] % 4) * 16 + s[1] / 16),
            b64_char((s[1] % 16) * 4 + s[2] / 64),
            b64_char(s[2] as int % 64),
        ] + base64_of(s.skip(3))
    }
}

/// `base64::engine::general_purpose::STANDARD.encode`: standard base64
/// with padding, as its documentation and RFC 4648 define it.
#[verifier::external_body]
fn base64_encode(data: &[u8]) -> (r: String)
    ensures
        r@ == base64_of(data@),
{
    base64::engine::general_purpose::STANDARD.encode(data)
}

#[verifier::external_type_specification]
#[verifier::external_body]
pub struct ExPdfDocument(lopdf::Document);

/// Name for whether `lopdf::Document::load_mem` accepts the bytes.
pub uninterp spec fn pdf_parses(data: Seq<u8>) -> bool;

/// Name for the text of `lopdf::Document::load_mem`'s error on the bytes.
pub uninterp spec fn pdf_error_text(data: Seq<u8>) -> Seq<char>;

/// Name for the number of pages (`get_pages().len()`) of the parsed bytes.
pub uninterp spec fn pdf_page_count(data: Seq<u8>) -> nat;

/// Name for the string entry `key` of the document information dictionary
/// of the parsed bytes, decoded as lossy UTF-8.
pub uninterp spec fn pdf_info_entry(data: Seq<u8>, key: Seq<u8>) -> Option<Seq<char>>;

/// `lopdf::Document::load_mem`: the document, or the text of its error.
/// lopdf is built without its parallel object loading, so what it makes of
/// the bytes depends on the bytes alone.  Its loader returns on bytes
/// within `pdf_within_limits`: there no cross-reference chain can be
/// followed (no `Prev`), no stream length is read by parsing another
/// object, no object stream or predictor is decoded, every count and width
/// read from the file is at most its length plus 65535, and arrays and
/// dictionaries nest at most 128 deep (literal strings at most 100 more, by
/// lopdf's own limit), which a 2 MB stack holds.
#[verifier::external_body]
fn pdf_load(data: &[u8]) -> (r: Result<lopdf::Document, String>)
    requires
        pdf_within_limits(data@),
    ensures
        r is Ok == pdf_parses(data@),
        r matches Err(e) ==> e@ == pdf_error_text(data@),
{
    lopdf::Document::load_mem(data).map_err(|e| e.to_string())
}

/// The error text for bytes outside the limits the PDF reader accepts.
pub open spec fn pdf_limits_text() -> Seq<char> {
    "the document's structure is outside what this reader accepts (a chain of cross-reference sections, object streams, predictors, indirect stream lengths, numbers beyond the file's size, or more than 128 bytes '[' and '<')"@
}

/// The bytes load: they are within the limits and lopdf parses them.
pub open spec fn pdf_loads(data: Seq<u8>) -> bool {
    pdf_within_limits(data) && pdf_parses(data)
}

/// Why bytes do not load.
pub open spec fn pdf_load_error(data: Seq<u8>) -> Seq<char> {
    if pdf_within_limits(data) { pdf_error_text(data) } else { pdf_limits_text() }
}

/// A parsed PDF, with the bytes it was parsed from.
pub struct LoadedPdf {
    doc: lopdf::Document,
    source: Ghost<Seq<u8>>,
}

impl LoadedPdf {
    /// The bytes the document was parsed from.
    pub closed spec fn bytes(&self) -> Seq<u8> {
        self.source@
    }

    /// Parses PDF bytes.
    pub fn load(data: &[u8]) -> (r: Result<LoadedPdf, String>)
        ensures
            r is Ok == pdf_loads(data@),
            r matches Ok(p) ==> p.bytes() == data@,
            r matches Err(e) ==> e@ == pdf_load_error(data@),
    {
        if !within_pdf_limits(data) {
            let m = "the document's structure is outside what this reader accepts (a chain of cross-reference sections, object streams, predictors, indirect stream lengths, numbers beyond the file's size, or more than 128 bytes '[' and '<')";
            proof {
                reveal_strlit("the document's structure is outside what this reader accepts (a chain of cross-reference sections, object streams, predictors, indirect stream lengths, numbers beyond the file's size, or more than 128 bytes '[' and '<')");
            }
            return Err(m.to_owned());
        }
        match pdf_load(data) {
            Ok(doc) => Ok(LoadedPdf { doc, source: Ghost(data@) }),
            Err(e) => Err(e),
        }
    }

    /// `get_pages().len()` of the document (only `load` builds one, from
    /// its bytes).
    #[verifier::external_body]
    fn page_count(&self) -> (r: usize)
        ensures
            r == pdf_page_count(self.bytes()),
    {
        self.doc.get_pages().len()
    }

    /// The string entry `key` of the document information dictionary (the
    /// trailer's `Info` reference), decoded as lossy UTF-8.
    #[verifier::external_body]
    fn info_string(&self, key: &[u8]) -> (r: Option<String>)
        ensures
            opt_chars(r) == pdf_info_entry(self.bytes(), key@),
    {
        let info = self.doc.trailer.get(b"Info").ok()?.as_reference().ok()?;
        let dict = self.doc.get_object(info).ok()?.as_dict().ok()?;
        let bytes = dict.get(key).ok()?.as_str().ok()?;
        Some(String::from_utf8_lossy(bytes).to_string())
    }
}

/// The text reported for a PDF with the given number of pages.
pub open spec fn pdf_text(pages: u32) -> Seq<char> {
    "[PDF Document with "@ + decimal(pages as nat) + " pages - text extraction not fully implemented]"@
}

impl ReadTool {
    /// A read tool.
    pub fn new() -> (r: Self) {
        ReadTool
    }

    /// Reads and validates the arguments of a read.
    pub fn parse_args(args: &JsonValue) -> (r: Result<ReadArgs, String>)
        ensures
            match (r, read_parse(args@)) {
                (Ok(a), Ok(v)) => a.path@ == v.0 && a.offset == v.1 && a.limit == v.2,
                (Err(m), Err(e)) => m@ == e,
                _ => false,
            },
    {
        let path = match args.get_str("path") {
            Some(p) => p,
            None => return Err("Missing 'path' argument".to_owned()),
        };
        if let Some(m) = failure_message(validate_path(path)) {
            return Err(m);
        }
        let offset: Option<usize> = match args.get_u64("offset") {
            Some(x) => Some(#[verifier::truncate] (x as usize)),
            None => None,
        };
        let limit: Option<usize> = match args.get_u64("limit") {
            Some(x) => Some(#[verifier::truncate] (x as usize)),
            None => None,
        };
        if let Some(m) = failure_message(validate_read_range(offset, limit)) {
            return Err(m);
        }
        Ok(ReadArgs { path: path.to_owned(), offset, limit })
    }

    /// The requested lines of a file's content and its total line count.
    pub fn read_range(content: &str, offset: Option<usize>, limit: Option<usize>) -> (r: FileReadResult)
        ensures
            r.total_lines == lines(content@).len(),
            r.content@ == ranged_content(content@, offset, limit),
    {
        let c = chars_of(content);
        let ls = lines_of(c.as_slice());
        let total = ls.len();
        proof {
            assert(views(ls@).len() == ls@.len());
        }
        if offset.is_none() && limit.is_none() {
            return FileReadResult { content: content.to_owned(), total_lines: total };
        }
        let from: usize = match offset {
            Some(o) => if o <= total { o } else { total },
            None => 0,
        };
        let avail = total - from;
        let count: usize = match limit {
            Some(l) => if l <= avail { l } else { avail },
            None => avail,
        };
        let picked = clone_lines(ls.as_slice(), from, from + count);
        let sep: [char; 1] = ['\n'];
        let joined = join_chars(picked.as_slice(), &sep);
        proof {
            reveal_strlit("\n");
            assert(sep@ =~= "\n"@);
            let all = lines(content@);
            let a = match offset {
                Some(o) => if o <= all.len() { all.skip(o as int) } else { Seq::empty() },
                None => all,
            };
            assert(a =~= views(ls@).subrange(from as int, total as int));
            assert(views(picked@) =~= selected_lines(all, offset, limit));
        }
        FileReadResult { content: string_of(joined.as_slice()), total_lines: total }
    }

    /// The metadata of an image read from its bytes.
    pub fn extract_image_metadata(data: &[u8], format: &str) -> (r: ImageMetadata)
        ensures
            image_metadata_ok(data@, format@, r),
    {
        let mut metadata = ImageMetadata {
            format: format.to_owned(),
            width: None,
            height: None,
            color_type: None,
            has_alpha: None,
            size: data.len(),
        };
        let f = chars_of(format);
        let fs = f.as_slice();
        if crate::text::eq_str(fs, "png") {
            if data.len() >= 24 {
                let w = (data[16] as u32) * 16777216 + (data[17] as u32) * 65536 + (data[18] as u32) * 256 + (data[19] as u32);
                let h = (data[20] as u32) * 16777216 + (data[21] as u32) * 65536 + (data[22] as u32) * 256 + (data[23] as u32);
                metadata.width = Some(w);
                metadata.height = Some(h);
            }
            if data.len() >= 26 {
                let t = data[25];
                let name = if t == 0 {
                    "Grayscale"
                } else if t == 2 {
                    "RGB"
                } else if t == 3 {
                    "Indexed"
                } else if t == 4 {
                    "Grayscale with Alpha"
                } else if t == 6 {
                    "RGBA"
                } else {
                    "Unknown"
                };
                metadata.color_type = Some(name.to_owned());
                metadata.has_alpha = Some(t == 4 || t == 6);
            }
        } else if crate::text::eq_str(fs, "jpeg") || crate::text::eq_str(fs, "jpg") {
            metadata.color_type = Some("YCbCr".to_owned());
        }
        metadata
    }

    /// The first `max_bytes` bytes in upper-case hexadecimal, separated by spaces.
    pub fn hex_preview(data: &[u8], max_bytes: usize) -> (r: String)
        ensures
            r@ == hex_preview_of(data@, max_bytes as nat),
    {
        let n = if data.len() <= max_bytes { data.len() } else { max_bytes };
        let digits: [char; 16] = ['0', '1', '2', '3', '4', '5', '6', '7', '8', '9', 'A', 'B', 'C', 'D', 'E', 'F'];
        proof {
            assert(digits@ =~= seq!['0', '1', '2', '3', '4', '5', '6', '7', '8', '9', 'A', 'B', 'C', 'D', 'E', 'F']);
        }
        let mut parts: Vec<Vec<char>> = Vec::new();
        let mut i: usize = 0;
        while i < n
            invariant
                i <= n <= data@.len(),
                digits@ == seq!['0', '1', '2', '3', '4', '5', '6', '7', '8', '9', 'A', 'B', 'C', 'D', 'E', 'F'],
                views(parts@) == data@.take(i as int).map_values(|b: u8| hex_byte(b)),
            decreases n - i,
        {
            let b = data[i];
            let mut p: Vec<char> = Vec::new();
            p.push(digits[(b / 16) as usize]);
            p.push(digits[(b % 16) as usize]);
            let ghost before = parts@;
            parts.push(p);
            proof {
                assert(p@ =~= hex_byte(b));
                assert(views(parts@) =~= views(before).push(p@));
                assert(data@.take(i + 1).map_values(|b: u8| hex_byte(b)) =~= data@.take(i as int).map_values(
                    |b: u8| hex_byte(b),
                ).push(hex_byte(data@[i as int])));
            }
            i = i + 1;
        }
        let sep: [char; 1] = [' '];
        proof {
            reveal_strlit(" ");
        }
        assert(sep@ =~= " "@);
        let joined = join_chars(parts.as_slice(), &sep);
        string_of(joined.as_slice())
    }

    /// Text and metadata of a PDF: its page count and the title and author
    /// of its information dictionary.
    pub fn extract_pdf_text(data: &[u8]) -> (r: Result<(String, PdfMetadata), String>)
        ensures
            r is Ok == pdf_loads(data@),
            r matches Err(e) ==> e@ == "Failed to parse PDF: "@ + pdf_load_error(data@),
            r matches Ok((t, m)) ==> ({
                let pages = pdf_page_count(data@) as u32;
                &&& t@ == pdf_text(pages)
                &&& m.pages == Some(pages)
                &&& opt_chars(m.title) == pdf_info_entry(data@, "Title"@.map_values(|c: char| c as u8))
                &&& opt_chars(m.author) == pdf_info_entry(data@, "Author"@.map_values(|c: char| c as u8))
                &&& m.size == data@.len()
            }),
    {
        let doc = match LoadedPdf::load(data) {
            Ok(d) => d,
            Err(e) => {
                let mut v: Vec<char> = Vec::new();
                extend_str(&mut v, "Failed to parse PDF: ");
                extend_str(&mut v, e.as_str());
                return Err(string_of(v.as_slice()));
            },
        };
        let pages = #[verifier::truncate] (doc.page_count() as u32);
        let mut t: Vec<char> = Vec::new();
        extend_str(&mut t, "[PDF Document with ");
        let d = decimal_chars(pages as u64);
        extend_chars(&mut t, d.as_slice());
        extend_str(&mut t, " pages - text extraction not fully implemented]");
        let title_key: [u8; 5] = [84, 105, 116, 108, 101];
        let author_key: [u8; 6] = [65, 117, 116, 104, 111, 114];
        proof {
            reveal_strlit("Title");
            reveal_strlit("Author");
            assert(title_key@ =~= "Title"@.map_values(|c: char| c as u8));
            assert(author_key@ =~= "Author"@.map_values(|c: char| c as u8));
        }
        let title = doc.info_string(&title_key);
        let author = doc.info_string(&author_key);
        Ok((string_of(t.as_slice()), PdfMetadata { pages: Some(pages), title, author, size: data.len() }))
    }

    /// The answer when the path does not exist.
    pub fn file_not_found(path: &str) -> (r: JsonValue)
        ensures
            r@ == error_doc("read"@, "FILE_NOT_FOUND"@, "File not found: "@ + path@, "The file '"@ + path@ + "' does not exist"@),
    {
        let mut m: Vec<char> = Vec::new();
        extend_str(&mut m, "File not found: ");
        extend_str(&mut m, path);
        let mut d: Vec<char> = Vec::new();
        extend_str(&mut d, "The file '");
        extend_str(&mut d, path);
        extend_str(&mut d, "' does not exist");
        JsonBuilder::build_error("read", "FILE_NOT_FOUND", string_of(m.as_slice()).as_str(), string_of(d.as_slice()).as_str())
    }

    /// The answer when the path is not a file.
    pub fn not_a_file(path: &str) -> (r: JsonValue)
        ensures
            r@ == error_doc("read"@, "NOT_A_FILE"@, "Not a file: "@ + path@, "The path '"@ + path@ + "' is not a file"@),
    {
        let mut m: Vec<char> = Vec::new();
        extend_str(&mut m, "Not a file: ");
        extend_str(&mut m, path);
        let mut d: Vec<char> = Vec::new();
        extend_str(&mut d, "The path '");
        extend_str(&mut d, path);
        extend_str(&mut d, "' is not a file");
        JsonBuilder::build_error("read", "NOT_A_FILE", string_of(m.as_slice()).as_str(), string_of(d.as_slice()).as_str())
    }

    /// The answer for a text file: the requested lines, truncated when too
    /// large, with the total line count.
    pub fn text_response(args: &ReadArgs, content: &str) -> (r: JsonValue)
        ensures
            r@ == success_doc("read"@, file_content_data(
                args.path@,
                truncated(ranged_content(content@, args.offset, args.limit)),
                args.offset,
                args.limit,
                Some(lines(content@).len() as usize),
            )),
    {
        let read = Self::read_range(content, args.offset, args.limit);
        utf8_fits(read.content.as_str());
        let shown = truncate_output(read.content.as_str());
        utf8_fits(shown.as_str());
        JsonBuilder::build_file_content(args.path.as_str(), shown.as_str(), args.offset, args.limit, Some(read.total_lines))
    }
}

/// The text reported when a PDF cannot be parsed.
pub open spec fn pdf_failure_text(data: Seq<u8>) -> Seq<char> {
    "[Error extracting PDF text: "@ + ("Failed to parse PDF: "@ + pdf_load_error(data)) + "]"@
}

/// The metadata reported for a PDF: what was read from it, or only its
/// size when it cannot be parsed.
pub open spec fn pdf_metadata_ok(data: Seq<u8>, m: PdfMetadata) -> bool {
    if pdf_loads(data) {
        &&& m.pages == Some(pdf_page_count(data) as u32)
        &&& opt_chars(m.title) == pdf_info_entry(data, "Title"@.map_values(|c: char| c as u8))
        &&& opt_chars(m.author) == pdf_info_entry(data, "Author"@.map_values(|c: char| c as u8))
        &&& m.size == data.len()
    } else {
        m.pages is None && m.title is None && m.author is None && m.size == data.len()
    }
}

/// The content of an image or binary file after `base64_of`, for files
/// small enough to encode.
pub open spec fn encoded_if(ok: bool, data: Seq<u8>) -> Option<Seq<char>> {
    if ok { Some(base64_of(data)) } else { None }
}

impl ReadTool {
    /// The answer for a PDF: its text (or the parse error), metadata, and
    /// its base64 content when it is at most 1 MB.
    pub fn pdf_response(args: &ReadArgs, data: &[u8]) -> (r: JsonValue)
        ensures
            exists|m: PdfMetadata| pdf_metadata_ok(data@, m) && r@ == success_doc("read"@, pdf_data(
                args.path@,
                if pdf_loads(data@) { pdf_text(pdf_page_count(data@) as u32) } else { pdf_failure_text(data@) },
                encoded_if(data@.len() <= MAX_BASE64_SIZE, data@),
                m,
            )),
    {
        let (text, meta) = match Self::extract_pdf_text(data) {
            Ok(x) => x,
            Err(e) => {
                let mut v: Vec<char> = Vec::new();
                extend_str(&mut v, "[Error extracting PDF text: ");
                extend_str(&mut v, e.as_str());
                extend_str(&mut v, "]");
                (string_of(v.as_slice()), PdfMetadata { pages: None, title: None, author: None, size: data.len() })
            },
        };
        let encoded: Option<String> = if FileTypeDetector::can_encode_base64(data.len(), FileCategory::Pdf) {
            Some(base64_encode(data))
        } else {
            None
        };
        let b64: Option<&str> = match &encoded {
            Some(s) => Some(s.as_str()),
            None => None,
        };
        let r = JsonBuilder::build_pdf_result(args.path.as_str(), text.as_str(), b64, &meta);
        proof {
            assert(pdf_metadata_ok(data@, meta));
            let want_text = if pdf_loads(data@) { pdf_text(pdf_page_count(data@) as u32) } else { pdf_failure_text(data@) };
            assert(text@ =~= want_text);
            let got_b64 = match b64 {
                Some(b) => Some(b@),
                None => None,
            };
            assert(got_b64 == encoded_if(data@.len() <= MAX_BASE64_SIZE, data@));
            assert(r@ == success_doc("read"@, pdf_data(args.path@, want_text, encoded_if(data@.len() <= MAX_BASE64_SIZE, data@), meta)));
        }
        r
    }

    /// The answer for an image: its metadata (the format is the path's
    /// extension, or `unknown`) and its base64 content.
    pub fn image_response(args: &ReadArgs, data: &[u8]) -> (r: JsonValue)
        ensures
            exists|m: ImageMetadata| image_metadata_ok(data@, match crate::tools::domain::file_type::path_extension(args.path@) {
                Some(e) => e,
                None => "unknown"@,
            }, m) && r@ == success_doc("read"@, JsonView::Object(seq![
                crate::tools::domain::json_value::str_member("path"@, args.path@),
                crate::tools::domain::json_value::str_member("type"@, "image"@),
                ("metadata"@, image_metadata_doc(m)),
                crate::tools::domain::json_value::str_member("content_base64"@, base64_of(data@)),
            ])),
    {
        let ext = crate::tools::domain::file_type::extension_of(args.path.as_str());
        let format: String = match ext {
            Some(e) => e,
            None => "unknown".to_owned(),
        };
        let meta = Self::extract_image_metadata(data, format.as_str());
        let encoded = base64_encode(data);
        JsonBuilder::build_image_result(args.path.as_str(), encoded.as_str(), &meta)
    }

    /// The answer for another binary file: its base64 content when it is at
    /// most 1 MB, else an error with a hexadecimal preview of 32 bytes.
    pub fn binary_response(args: &ReadArgs, data: &[u8]) -> (r: JsonValue)
        ensures
            data@.len() <= MAX_BASE64_SIZE ==> r@ == success_doc("read"@, JsonView::Object(seq![
                crate::tools::domain::json_value::str_member("path"@, args.path@),
                crate::tools::domain::json_value::str_member("type"@, "binary"@),
                crate::tools::domain::json_value::uint_member("size"@, data@.len() as u64),
                crate::tools::domain::json_value::str_member("encoding"@, "base64"@),
                crate::tools::domain::json_value::str_member("content_base64"@, base64_of(data@)),
            ])),
            data@.len() > MAX_BASE64_SIZE ==> r@ == error_doc(
                "read"@,
                "FILE_TOO_LARGE_FOR_BASE64"@,
                "Binary file too large for base64 encoding: "@ + args.path@,
                crate::tools::domain::json_builder::too_large_details(data@.len(), hex_preview_of(data@, 32)),
            ),
    {
        if FileTypeDetector::can_encode_base64(data.len(), FileCategory::Binary) {
            let encoded = base64_encode(data);
            JsonBuilder::build_binary_result(args.path.as_str(), encoded.as_str(), data.len())
        } else {
            let preview = Self::hex_preview(data, 32);
            JsonBuilder::build_binary_too_large_error(args.path.as_str(), data.len(), preview.as_str())
        }
    }
}

/// What a read does next once the path has been looked at.
#[derive(Debug)]
pub enum ReadStep {
    /// Answer at once with this document.
    Answer(JsonValue),
    /// Read the file as text and answer with `text_response`.
    ReadText,
    /// Read the file's bytes and answer with `binary_answer` for the category.
    ReadBinary(FileCategory),
}

/// The category a read routes a path by: its extension's, or text.
pub open spec fn read_category(path: Seq<char>) -> FileCategory {
    match crate::tools::domain::file_type::extension_category(path) {
        Some(c) => c,
        None => FileCategory::Text,
    }
}

/// Whether a category is read as text.
pub open spec fn read_as_text(c: FileCategory) -> bool {
    c == FileCategory::Text || c == FileCategory::Markdown || c == FileCategory::Json
}

impl ReadTool {
    /// Decides what a read does, given whether the path exists and is a
    /// file: a missing path and a path that is no file are answered at
    /// once; text, Markdown and JSON files are read as text; the others as
    /// bytes.
    pub fn plan(args: &ReadArgs, exists: bool, is_file: bool) -> (r: ReadStep)
        ensures
            !exists ==> (r matches ReadStep::Answer(j) && j@ == error_doc(
                "read"@,
                "FILE_NOT_FOUND"@,
                "File not found: "@ + args.path@,
                "The file '"@ + args.path@ + "' does not exist"@,
            )),
            exists && !is_file ==> (r matches ReadStep::Answer(j) && j@ == error_doc(
                "read"@,
                "NOT_A_FILE"@,
                "Not a file: "@ + args.path@,
                "The path '"@ + args.path@ + "' is not a file"@,
            )),
            exists && is_file ==> r == (if read_as_text(read_category(args.path@)) {
                ReadStep::ReadText
            } else {
                ReadStep::ReadBinary(read_category(args.path@))
            }),
    {
        if !exists {
            return ReadStep::Answer(Self::file_not_found(args.path.as_str()));
        }
        if !is_file {
            return ReadStep::Answer(Self::not_a_file(args.path.as_str()));
        }
        let category = match FileTypeDetector::detect_from_path(args.path.as_str()) {
            Ok(c) => c,
            Err(_) => FileCategory::Text,
        };
        match category {
            FileCategory::Text | FileCategory::Markdown | FileCategory::Json => ReadStep::ReadText,
            _ => ReadStep::ReadBinary(category),
        }
    }

    /// The answer for the bytes of a file read as bytes: PDFs by
    /// `pdf_response`, images by `image_response`, anything else by
    /// `binary_response`.
    pub fn binary_answer(args: &ReadArgs, category: FileCategory, data: &[u8]) -> (r: JsonValue)
        ensures
            category == FileCategory::Pdf ==> exists|m: PdfMetadata| pdf_metadata_ok(data@, m) && r@ == success_doc("read"@, pdf_data(
                args.path@,
                if pdf_loads(data@) { pdf_text(pdf_page_count(data@) as u32) } else { pdf_failure_text(data@) },
                encoded_if(data@.len() <= MAX_BASE64_SIZE, data@),
                m,
            )),
            category == FileCategory::Image ==> exists|m: ImageMetadata| image_metadata_ok(data@, match crate::tools::domain::file_type::path_extension(args.path@) {
                Some(e) => e,
                None => "unknown"@,
            }, m) && r@ == success_doc("read"@, JsonView::Object(seq![
                crate::tools::domain::json_value::str_member("path"@, args.path@),
                crate::tools::domain::json_value::str_member("type"@, "image"@),
                ("metadata"@, image_metadata_doc(m)),
                crate::tools::domain::json_value::str_member("content_base64"@, base64_of(data@)),
            ])),
            category != FileCategory::Pdf && category != FileCategory::Image && data@.len() <= MAX_BASE64_SIZE ==> r@ == success_doc("read"@, JsonView::Object(seq![
                crate::tools::domain::json_value::str_member("path"@, args.path@),
                crate::tools::domain::json_value::str_member("type"@, "binary"@),
                crate::tools::domain::json_value::uint_member("size"@, data@.len() as u64),
                crate::tools::domain::json_value::str_member("encoding"@, "base64"@),
                crate::tools::domain::json_value::str_member("content_base64"@, base64_of(data@)),
            ])),
            category != FileCategory::Pdf && category != FileCategory::Image && data@.len() > MAX_BASE64_SIZE ==> r@ == error_doc(
                "read"@,
                "FILE_TOO_LARGE_FOR_BASE64"@,
                "Binary file too large for base64 encoding: "@ + args.path@,
                crate::tools::domain::json_builder::too_large_details(data@.len(), hex_preview_of(data@, 32)),
            ),
    {
        match category {
            FileCategory::Pdf => Self::pdf_response(args, data),
            FileCategory::Image => Self::image_response(args, data),
            _ => Self::binary_response(args, data),
        }
    }
}

} // verus!
