//! Web fetch tool: reads and validates its arguments and turns a fetched
//! response into the answer, converting HTML to Markdown or plain text.
//! The HTTP exchange is left to the caller.
use vstd::prelude::*;
use crate::text::{chars_of, contains, contains_chars, decimal, decimal_chars, eq_str, extend_chars, extend_str, normalize_ws, normalize_ws_chars, starts_with, starts_with_str, string_of};
use crate::tools::application::grep_tool::{regex_replaced, regex_valid, CompiledPattern};
use crate::tools::domain::json_value::{jget, jstr, ju64, JsonValue, JsonView};
use crate::tools::domain::xml_builder::{success_xml, XmlBuilder};

verus! {

/// Largest response accepted (5 MB).
pub const MAX_RESPONSE_SIZE: usize = 5242880;

/// Timeout when none is given, in seconds.
pub const DEFAULT_TIMEOUT_SECS: u64 = 30;

/// Largest timeout, in seconds.
pub const MAX_TIMEOUT_SECS: u64 = 120;

/// Web fetch tool.
pub struct WebFetchTool;

/// Arguments of a fetch.
#[derive(Debug)]
pub struct WebFetchArgs {
    pub url: String,
    pub format: String,
    pub timeout_secs: u64,
}

/// What the tool makes of its arguments: an `http://` or `https://` URL, a
/// format among `text`, `markdown` (the default) and `html`, and a timeout
/// (30 s by default, at most 120 s).
pub open spec fn webfetch_parse(v: JsonView) -> Result<(Seq<char>, Seq<char>, u64), Seq<char>> {
    match jstr(jget(v, "url"@)) {
        None => Err("Missing 'url' argument"@),
        Some(u) => if !starts_with(u, "http://"@) && !starts_with(u, "https://"@) {
            Err("URL must start with http:// or https://"@)
        } else {
            let f = match jstr(jget(v, "format"@)) {
                Some(x) => x,
                None => "markdown"@,
            };
            if f != "text"@ && f != "markdown"@ && f != "html"@ {
                Err("Invalid format '"@ + f + "'. Must be 'text', 'markdown', or 'html'"@)
            } else {
                let t = match ju64(jget(v, "timeout"@)) {
                    Some(x) => x,
                    None => DEFAULT_TIMEOUT_SECS,
                };
                Ok((u, f, if t <= MAX_TIMEOUT_SECS { t } else { MAX_TIMEOUT_SECS }))
            }
        },
    }
}

/// Name for the Markdown `html2md::parse_html` makes of an HTML text.
pub uninterp spec fn html_as_markdown(html: Seq<char>) -> Seq<char>;

/// Most characters `<` of an HTML text converted to Markdown.
pub const MAX_MARKDOWN_TAGS: usize = 6;

/// Number of characters `<` in a text.
pub open spec fn markup_openers(t: Seq<char>) -> nat
    decreases t.len(),
{
    if t.len() == 0 {
        0
    } else {
        markup_openers(t.drop_last()) + if t.last() == '<' { 1nat } else { 0nat }
    }
}

/// An HTML text small enough in markup to convert to Markdown.
pub open spec fn html_within_limits(t: Seq<char>) -> bool {
    markup_openers(t) <= MAX_MARKDOWN_TAGS
}

/// Whether an HTML text is small enough in markup to convert to Markdown.
pub fn within_html_limits(html: &str) -> (r: bool)
    ensures
        r == html_within_limits(html@),
{
    let c = chars_of(html);
    let mut n: usize = 0;
    let mut i: usize = 0;
    while i < c.len()
        invariant
            i <= c.len(),
            c@ == html@,
            n == markup_openers(c@.take(i as int)),
            n <= i,
        decreases c.len() - i,
    {
        assert(c@.take(i + 1).drop_last() =~= c@.take(i as int));
        if c[i] == '<' {
            n += 1;
        }
        i += 1;
    }
    assert(c@.take(i as int) =~= c@);
    n <= MAX_MARKDOWN_TAGS
}

/// `html2md::parse_html`.  html2md walks the tree html5ever builds
/// recursively, one call per level.  For a text with n characters `<`,
/// html5ever makes at most three elements per start tag (the tag and the
/// ones it implies, such as `tbody` and `tr`), at most 32 per end tag (the
/// adoption agency's 8 rounds of at most 4 clones), the three of the
/// document frame, and, each time it reopens formatting elements (at most
/// once per start tag or run of text), at most one per formatting tag
/// seen: at most 2n² + 36n + 3 elements, 291 for `MAX_MARKDOWN_TAGS`.  A
/// test walks 500 nested elements on a 2 MB stack; 1000 exhaust it.
#[verifier::external_body]
fn html_to_markdown(html: &str) -> (r: String)
    requires
        html_within_limits(html@),
    ensures
        r@ == html_as_markdown(html@),
{
    html2md::parse_html(html)
}

/// Name for the text of bytes decoded as UTF-8, invalid sequences replaced
/// by U+FFFD (`String::from_utf8_lossy`).
pub uninterp spec fn utf8_lossy(bytes: Seq<u8>) -> Seq<char>;

/// `String::from_utf8_lossy`.
#[verifier::external_body]
fn decode_lossy(bytes: &[u8]) -> (r: String)
    ensures
        r@ == utf8_lossy(bytes@),
{
    String::from_utf8_lossy(bytes).into_owned()
}

/// The markup removed when HTML is reduced to text: scripts, styles and tags.
pub open spec fn markup_pattern() -> Seq<char> {
    "<script[^>]*>.*?</script>|<style[^>]*>.*?</style>|<[^>]+>"@
}

/// Whether a content type is an image other than SVG.
pub open spec fn is_image_type(ct: Seq<char>) -> bool {
    starts_with(ct, "image/"@) && !contains(ct, "svg"@) && !contains(ct, "vnd.fastbidsheet"@)
}

impl WebFetchTool {
    /// A web fetch tool.
    pub fn new() -> (r: Self) {
        WebFetchTool
    }

    /// Reads and validates the arguments.
    pub fn parse_args(args: &JsonValue) -> (r: Result<WebFetchArgs, String>)
        ensures
            match (r, webfetch_parse(args@)) {
                (Ok(a), Ok(v)) => a.url@ == v.0 && a.format@ == v.1 && a.timeout_secs == v.2,
                (Err(m), Err(e)) => m@ == e,
                _ => false,
            },
    {
        let url = match args.get_str("url") {
            Some(u) => u,
            None => return Err("Missing 'url' argument".to_owned()),
        };
        let uc = chars_of(url);
        if !starts_with_str(uc.as_slice(), "http://") && !starts_with_str(uc.as_slice(), "https://") {
            return Err("URL must start with http:// or https://".to_owned());
        }
        let format = match args.get_str("format") {
            Some(f) => f,
            None => "markdown",
        };
        let fc = chars_of(format);
        if !eq_str(fc.as_slice(), "text") && !eq_str(fc.as_slice(), "markdown") && !eq_str(fc.as_slice(), "html") {
            let mut m: Vec<char> = Vec::new();
            extend_str(&mut m, "Invalid format '");
            extend_str(&mut m, format);
            extend_str(&mut m, "'. Must be 'text', 'markdown', or 'html'");
            return Err(string_of(m.as_slice()));
        }
        let t = match args.get_u64("timeout") {
            Some(x) => x,
            None => DEFAULT_TIMEOUT_SECS,
        };
        let timeout_secs = if t <= MAX_TIMEOUT_SECS { t } else { MAX_TIMEOUT_SECS };
        Ok(WebFetchArgs { url: url.to_owned(), format: format.to_owned(), timeout_secs })
    }

    /// The error when the server answered with a failure status.
    pub fn status_failed(status: &str) -> (r: String)
        ensures
            r@ == "Request failed with status code: "@ + status@,
    {
        let mut m: Vec<char> = Vec::new();
        extend_str(&mut m, "Request failed with status code: ");
        extend_str(&mut m, status);
        string_of(m.as_slice())
    }

    /// Whether a declared content length is over the limit.
    pub fn declared_too_large(content_length: u64) -> (r: bool)
        ensures
            r == ((content_length as usize) > MAX_RESPONSE_SIZE),
    {
        (#[verifier::truncate] (content_length as usize)) > MAX_RESPONSE_SIZE
    }

    /// The error for a response over the limit.
    pub fn too_large() -> (r: String)
        ensures
            r@ == "Response too large (exceeds 5MB limit)"@,
    {
        "Response too large (exceeds 5MB limit)".to_owned()
    }

    /// Whether a content type is an image other than SVG.
    pub fn is_image(content_type: &str) -> (r: bool)
        ensures
            r == is_image_type(content_type@),
    {
        let c = chars_of(content_type);
        let svg: [char; 3] = ['s', 'v', 'g'];
        let fb = chars_of("vnd.fastbidsheet");
        proof {
            reveal_strlit("svg");
            assert(svg@ =~= "svg"@);
        }
        starts_with_str(c.as_slice(), "image/") && !contains_chars(c.as_slice(), &svg) && !contains_chars(
            c.as_slice(),
            fb.as_slice(),
        )
    }

    /// HTML reduced to text: scripts, styles and tags become spaces, and
    /// runs of whitespace become one space.  When the markup pattern does
    /// not compile (it does), the text is only normalised.
    pub fn extract_text_from_html(html: &str) -> (r: String)
        ensures
            regex_valid(markup_pattern()) ==> r@ == normalize_ws(regex_replaced(markup_pattern(), html@, " "@)),
    {
        let stripped = match CompiledPattern::compile("<script[^>]*>.*?</script>|<style[^>]*>.*?</style>|<[^>]+>") {
            Ok(re) => re.replace_all(html, " "),
            Err(_) => html.to_owned(),
        };
        let c = chars_of(stripped.as_str());
        string_of(normalize_ws_chars(c.as_slice()).as_slice())
    }

    /// The text answered for a response body: a note for images; else the
    /// body (decoded as UTF-8) converted to Markdown or text when HTML was
    /// served and that format asked for, or as it is.  HTML with more markup
    /// than Markdown conversion takes (`html_within_limits`) is given as
    /// text.
    pub fn output(args: &WebFetchArgs, content_type: &str, body: &[u8]) -> (r: String)
        ensures
            is_image_type(content_type@) ==> r@ == "Image fetched successfully ("@ + decimal(body@.len()) + " bytes, "@
                + content_type@ + ")"@,
            !is_image_type(content_type@) && args.format@ == "markdown"@ && contains(content_type@, "html"@)
                && html_within_limits(utf8_lossy(body@)) ==> r@ == html_as_markdown(utf8_lossy(body@)),
            !is_image_type(content_type@) && args.format@ == "markdown"@ && contains(content_type@, "html"@)
                && !html_within_limits(utf8_lossy(body@)) && regex_valid(markup_pattern()) ==> r@ == normalize_ws(
                regex_replaced(markup_pattern(), utf8_lossy(body@), " "@),
            ),
            !is_image_type(content_type@) && args.format@ == "text"@ && contains(content_type@, "html"@)
                && regex_valid(markup_pattern()) ==> r@ == normalize_ws(regex_replaced(markup_pattern(), utf8_lossy(body@), " "@)),
            !is_image_type(content_type@) && !((args.format@ == "markdown"@ || args.format@ == "text"@) && contains(
                content_type@,
                "html"@,
            )) ==> r@ == utf8_lossy(body@),
    {
        if Self::is_image(content_type) {
            let mut m: Vec<char> = Vec::new();
            extend_str(&mut m, "Image fetched successfully (");
            extend_chars(&mut m, decimal_chars(body.len() as u64).as_slice());
            extend_str(&mut m, " bytes, ");
            extend_str(&mut m, content_type);
            extend_str(&mut m, ")");
            return string_of(m.as_slice());
        }
        let content = decode_lossy(body);
        let ct = chars_of(content_type);
        let html: [char; 4] = ['h', 't', 'm', 'l'];
        proof {
            reveal_strlit("html");
            assert(html@ =~= "html"@);
        }
        let is_html = contains_chars(ct.as_slice(), &html);
        let f = chars_of(args.format.as_str());
        proof {
            reveal_strlit("text");
            reveal_strlit("markdown");
            assert("text"@.len() != "markdown"@.len());
            assert("text"@ != "markdown"@);
        }
        if eq_str(f.as_slice(), "markdown") && is_html && within_html_limits(content.as_str()) {
            html_to_markdown(content.as_str())
        } else if (eq_str(f.as_slice(), "text") || eq_str(f.as_slice(), "markdown")) && is_html {
            let r = Self::extract_text_from_html(content.as_str());
            assert(content@ == utf8_lossy(body@));
            assert(regex_valid(markup_pattern()) ==> r@ == normalize_ws(regex_replaced(markup_pattern(), utf8_lossy(body@), " "@)));
            r
        } else {
            content
        }
    }

    /// The answer: titled with the URL and content type.
    pub fn response(args: &WebFetchArgs, content_type: &str, output: &str) -> (r: String)
        ensures
            r@ == success_xml("webfetch"@, args.url@ + " ("@ + content_type@ + ")"@, output@),
    {
        let mut t: Vec<char> = Vec::new();
        extend_str(&mut t, args.url.as_str());
        extend_str(&mut t, " (");
        extend_str(&mut t, content_type);
        extend_str(&mut t, ")");
        XmlBuilder::build_success("webfetch", string_of(t.as_slice()).as_str(), output)
    }
}

impl WebFetchTool {
    /// The error when the request could not be sent.
    pub fn request_failed(error: &str) -> (r: String)
        ensures
            r@ == "Request failed: "@ + error@,
    {
        let mut m: Vec<char> = Vec::new();
        extend_str(&mut m, "Request failed: ");
        extend_str(&mut m, error);
        string_of(m.as_slice())
    }

    /// The error when the body could not be read.
    pub fn read_failed(error: &str) -> (r: String)
        ensures
            r@ == "Failed to read response: "@ + error@,
    {
        let mut m: Vec<char> = Vec::new();
        extend_str(&mut m, "Failed to read response: ");
        extend_str(&mut m, error);
        string_of(m.as_slice())
    }

    /// Whether a body of this many bytes is over the limit.
    pub fn body_too_large(len: usize) -> (r: bool)
        ensures
            r == (len > MAX_RESPONSE_SIZE),
    {
        len > MAX_RESPONSE_SIZE
    }

    /// The content type served, `text/plain` when none was declared (or it
    /// was not visible text).
    pub fn content_type_or_default(declared: Option<&str>) -> (r: String)
        ensures
            r@ == (match declared {
                Some(c) => c@,
                None => "text/plain"@,
            }),
    {
        match declared {
            Some(c) => c.to_owned(),
            None => "text/plain".to_owned(),
        }
    }
}

} // verus!
