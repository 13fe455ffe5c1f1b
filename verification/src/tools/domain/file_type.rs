//! File type detection by extension and by magic bytes.
use vstd::prelude::*;
use vstd::utf8::valid_utf8;
use crate::text::{chars_of, eq_str, lowercase_of, to_lowercase};

verus! {

/// Maximum file size for base64 encoding (1MB).
pub const MAX_BASE64_SIZE: usize = 1048576;

/// Category of a file, used to route it to a handler.
#[derive(Debug, Clone, Copy, PartialEq, Eq, Structural)]
pub enum FileCategory {
    /// Text file (UTF-8 encoded).
    Text,
    /// PDF document.
    Pdf,
    /// Image file.
    Image,
    /// Markdown document.
    Markdown,
    /// JSON data.
    Json,
    /// Other binary file.
    Binary,
}

impl FileCategory {
    /// The MIME type of the category.
    pub fn mime_type(&self) -> (r: &'static str)
        ensures
            r@ == match *self {
                FileCategory::Text => "text/plain"@,
                FileCategory::Pdf => "application/pdf"@,
                FileCategory::Image => "image/*"@,
                FileCategory::Markdown => "text/markdown"@,
                FileCategory::Json => "application/json"@,
                FileCategory::Binary => "application/octet-stream"@,
            },
    {
        match self {
            FileCategory::Text => "text/plain",
            FileCategory::Pdf => "application/pdf",
            FileCategory::Image => "image/*",
            FileCategory::Markdown => "text/markdown",
            FileCategory::Json => "application/json",
            FileCategory::Binary => "application/octet-stream",
        }
    }

    /// PDFs, images and other binaries are base64 encoded when small enough.
    pub fn should_base64_encode(&self) -> (r: bool)
        ensures
            r == (*self == FileCategory::Pdf || *self == FileCategory::Image || *self
                == FileCategory::Binary),
    {
        match self {
            FileCategory::Pdf | FileCategory::Image | FileCategory::Binary => true,
            _ => false,
        }
    }

    /// Text is extracted from PDFs only.
    pub fn should_extract_text(&self) -> (r: bool)
        ensures
            r == (*self == FileCategory::Pdf),
    {
        match self {
            FileCategory::Pdf => true,
            _ => false,
        }
    }
}

/// Name for the result of `Path::new(p).extension()` read as UTF-8.
pub uninterp spec fn path_extension(p: Seq<char>) -> Option<Seq<char>>;

/// `Path::extension` of the path, as a string.
#[verifier::external_body]
pub(crate) fn extension_of(path: &str) -> (r: Option<String>)
    ensures
        match r {
            Some(e) => path_extension(path@) == Some(e@),
            None => path_extension(path@) is None,
        },
{
    std::path::Path::new(path).extension().and_then(|e| e.to_str()).map(|e| e.to_string())
}

/// `std::str::from_utf8(bytes).is_ok()`: whether the bytes are valid UTF-8.
#[verifier::external_body]
fn is_valid_utf8(bytes: &[u8]) -> (r: bool)
    ensures
        r == valid_utf8(bytes@),
{
    std::str::from_utf8(bytes).is_ok()
}

pub open spec fn text_extensions() -> Seq<Seq<char>> {
    seq![
        "txt"@, "rs"@, "js"@, "ts"@, "jsx"@, "tsx"@, "py"@, "rb"@, "go"@, "java"@, "c"@, "cpp"@,
        "h"@, "hpp"@, "cs"@, "php"@, "swift"@, "kt"@, "kts"@, "scala"@, "sh"@, "bash"@, "zsh"@,
        "fish"@, "ps1"@, "bat"@, "cmd"@, "yaml"@, "yml"@, "toml"@, "ini"@, "cfg"@, "conf"@,
        "xml"@, "html"@, "htm"@, "css"@, "scss"@, "less"@, "sql"@, "r"@, "m"@, "lua"@,
        "pl"@, "pm"@, "tcl"@, "vb"@, "fs"@, "fsx"@, "ex"@, "exs"@, "erl"@, "hrl"@,
        "dart"@, "groovy"@, "nim"@, "nix"@, "dhall"@,
    ]
}

pub open spec fn markdown_extensions() -> Seq<Seq<char>> {
    seq!["md"@, "markdown"@]
}

pub open spec fn json_extensions() -> Seq<Seq<char>> {
    seq!["json"@, "jsonc"@]
}

pub open spec fn pdf_extensions() -> Seq<Seq<char>> {
    seq!["pdf"@]
}

pub open spec fn image_extensions() -> Seq<Seq<char>> {
    seq![
        "png"@, "jpg"@, "jpeg"@, "gif"@, "bmp"@, "webp"@, "svg"@, "ico"@, "tiff"@, "tif"@,
        "avif"@, "jxl"@, "heic"@, "heif"@,
    ]
}

pub open spec fn binary_extensions() -> Seq<Seq<char>> {
    seq![
        "zip"@, "tar"@, "gz"@, "rar"@, "7z"@, "bz2"@, "xz"@, "zst"@, "exe"@, "dll"@,
        "so"@, "dylib"@, "bin"@, "dat"@, "db"@, "sqlite"@, "mdb"@, "woff"@, "woff2"@,
        "ttf"@, "otf"@, "eot"@, "mp3"@, "mp4"@, "avi"@, "mov"@, "wmv"@, "flv"@,
        "mkv"@, "webm"@, "wav"@, "ogg"@, "flac"@, "aac"@,
    ]
}

/// The category a lower-case extension stands for, if it is a known one.
pub open spec fn category_of_extension(e: Seq<char>) -> Option<FileCategory> {
    if text_extensions().contains(e) {
        Some(FileCategory::Text)
    } else if markdown_extensions().contains(e) {
        Some(FileCategory::Markdown)
    } else if json_extensions().contains(e) {
        Some(FileCategory::Json)
    } else if pdf_extensions().contains(e) {
        Some(FileCategory::Pdf)
    } else if image_extensions().contains(e) {
        Some(FileCategory::Image)
    } else if binary_extensions().contains(e) {
        Some(FileCategory::Binary)
    } else {
        None
    }
}

/// A list without `e`: every entry differs from it.
proof fn lemma_not_listed(list: Seq<Seq<char>>, e: Seq<char>)
    requires
        forall|i: int| 0 <= i < list.len() ==> #[trigger] list[i] != e,
    ensures
        !list.contains(e),
{
}

proof fn lemma_png_is_image()
    ensures
        category_of_extension("png"@) == Some(FileCategory::Image),
{
    reveal_strlit("bash");
    reveal_strlit("bat");
    reveal_strlit("c");
    reveal_strlit("cfg");
    reveal_strlit("cmd");
    reveal_strlit("conf");
    reveal_strlit("cpp");
    reveal_strlit("cs");
    reveal_strlit("css");
    reveal_strlit("dart");
    reveal_strlit("dhall");
    reveal_strlit("erl");
    reveal_strlit("ex");
    reveal_strlit("exs");
    reveal_strlit("fish");
    reveal_strlit("fs");
    reveal_strlit("fsx");
    reveal_strlit("go");
    reveal_strlit("groovy");
    reveal_strlit("h");
    reveal_strlit("hpp");
    reveal_strlit("hrl");
    reveal_strlit("htm");
    reveal_strlit("html");
    reveal_strlit("ini");
    reveal_strlit("java");
    reveal_strlit("js");
    reveal_strlit("json");
    reveal_strlit("jsonc");
    reveal_strlit("jsx");
    reveal_strlit("kt");
    reveal_strlit("kts");
    reveal_strlit("less");
    reveal_strlit("lua");
    reveal_strlit("m");
    reveal_strlit("markdown");
    reveal_strlit("md");
    reveal_strlit("nim");
    reveal_strlit("nix");
    reveal_strlit("pdf");
    reveal_strlit("php");
    reveal_strlit("pl");
    reveal_strlit("pm");
    reveal_strlit("png");
    reveal_strlit("ps1");
    reveal_strlit("py");
    reveal_strlit("r");
    reveal_strlit("rb");
    reveal_strlit("rs");
    reveal_strlit("scala");
    reveal_strlit("scss");
    reveal_strlit("sh");
    reveal_strlit("sql");
    reveal_strlit("swift");
    reveal_strlit("tcl");
    reveal_strlit("toml");
    reveal_strlit("ts");
    reveal_strlit("tsx");
    reveal_strlit("txt");
    reveal_strlit("vb");
    reveal_strlit("xml");
    reveal_strlit("yaml");
    reveal_strlit("yml");
    reveal_strlit("zsh");
    let e = "png"@;
    assert(text_extensions().len() == 58);
    assert(text_extensions()[0][0] != e[0]);
    assert(text_extensions()[1].len() != e.len());
    assert(text_extensions()[2].len() != e.len());
    assert(text_extensions()[3].len() != e.len());
    assert(text_extensions()[4][0] != e[0]);
    assert(text_extensions()[5][0] != e[0]);
    assert(text_extensions()[6].len() != e.len());
    assert(text_extensions()[7].len() != e.len());
    assert(text_extensions()[8].len() != e.len());
    assert(text_extensions()[9].len() != e.len());
    assert(text_extensions()[10].len() != e.len());
    assert(text_extensions()[11][0] != e[0]);
    assert(text_extensions()[12].len() != e.len());
    assert(text_extensions()[13][0] != e[0]);
    assert(text_extensions()[14].len() != e.len());
    assert(text_extensions()[15][1] != e[1]);
    assert(text_extensions()[16].len() != e.len());
    assert(text_extensions()[17].len() != e.len());
    assert(text_extensions()[18][0] != e[0]);
    assert(text_extensions()[19].len() != e.len());
    assert(text_extensions()[20].len() != e.len());
    assert(text_extensions()[21].len() != e.len());
    assert(text_extensions()[22][0] != e[0]);
    assert(text_extensions()[23].len() != e.len());
    assert(text_extensions()[24][1] != e[1]);
    assert(text_extensions()[25][0] != e[0]);
    assert(text_extensions()[26][0] != e[0]);
    assert(text_extensions()[27].len() != e.len());
    assert(text_extensions()[28][0] != e[0]);
    assert(text_extensions()[29].len() != e.len());
    assert(text_extensions()[30][0] != e[0]);
    assert(text_extensions()[31][0] != e[0]);
    assert(text_extensions()[32].len() != e.len());
    assert(text_extensions()[33][0] != e[0]);
    assert(text_extensions()[34].len() != e.len());
    assert(text_extensions()[35][0] != e[0]);
    assert(text_extensions()[36][0] != e[0]);
    assert(text_extensions()[37].len() != e.len());
    assert(text_extensions()[38].len() != e.len());
    assert(text_extensions()[39][0] != e[0]);
    assert(text_extensions()[40].len() != e.len());
    assert(text_extensions()[41].len() != e.len());
    assert(text_extensions()[42][0] != e[0]);
    assert(text_extensions()[43].len() != e.len());
    assert(text_extensions()[44].len() != e.len());
    assert(text_extensions()[45][0] != e[0]);
    assert(text_extensions()[46].len() != e.len());
    assert(text_extensions()[47].len() != e.len());
    assert(text_extensions()[48][0] != e[0]);
    assert(text_extensions()[49].len() != e.len());
    assert(text_extensions()[50][0] != e[0]);
    assert(text_extensions()[51][0] != e[0]);
    assert(text_extensions()[52][0] != e[0]);
    assert(text_extensions()[53].len() != e.len());
    assert(text_extensions()[54].len() != e.len());
    assert(text_extensions()[55][0] != e[0]);
    assert(text_extensions()[56][0] != e[0]);
    assert(text_extensions()[57].len() != e.len());
    lemma_not_listed(text_extensions(), e);
    assert(markdown_extensions().len() == 2);
    assert(markdown_extensions()[0].len() != e.len());
    assert(markdown_extensions()[1].len() != e.len());
    lemma_not_listed(markdown_extensions(), e);
    assert(json_extensions().len() == 2);
    assert(json_extensions()[0].len() != e.len());
    assert(json_extensions()[1].len() != e.len());
    lemma_not_listed(json_extensions(), e);
    assert(pdf_extensions().len() == 1);
    assert(pdf_extensions()[0][1] != e[1]);
    lemma_not_listed(pdf_extensions(), e);
    assert(image_extensions()[0] == e);
}

proof fn lemma_jpg_is_image()
    ensures
        category_of_extension("jpg"@) == Some(FileCategory::Image),
{
    reveal_strlit("bash");
    reveal_strlit("bat");
    reveal_strlit("c");
    reveal_strlit("cfg");
    reveal_strlit("cmd");
    reveal_strlit("conf");
    reveal_strlit("cpp");
    reveal_strlit("cs");
    reveal_strlit("css");
    reveal_strlit("dart");
    reveal_strlit("dhall");
    reveal_strlit("erl");
    reveal_strlit("ex");
    reveal_strlit("exs");
    reveal_strlit("fish");
    reveal_strlit("fs");
    reveal_strlit("fsx");
    reveal_strlit("go");
    reveal_strlit("groovy");
    reveal_strlit("h");
    reveal_strlit("hpp");
    reveal_strlit("hrl");
    reveal_strlit("htm");
    reveal_strlit("html");
    reveal_strlit("ini");
    reveal_strlit("java");
    reveal_strlit("jpg");
    reveal_strlit("js");
    reveal_strlit("json");
    reveal_strlit("jsonc");
    reveal_strlit("jsx");
    reveal_strlit("kt");
    reveal_strlit("kts");
    reveal_strlit("less");
    reveal_strlit("lua");
    reveal_strlit("m");
    reveal_strlit("markdown");
    reveal_strlit("md");
    reveal_strlit("nim");
    reveal_strlit("nix");
    reveal_strlit("pdf");
    reveal_strlit("php");
    reveal_strlit("pl");
    reveal_strlit("pm");
    reveal_strlit("ps1");
    reveal_strlit("py");
    reveal_strlit("r");
    reveal_strlit("rb");
    reveal_strlit("rs");
    reveal_strlit("scala");
    reveal_strlit("scss");
    reveal_strlit("sh");
    reveal_strlit("sql");
    reveal_strlit("swift");
    reveal_strlit("tcl");
    reveal_strlit("toml");
    reveal_strlit("ts");
    reveal_strlit("tsx");
    reveal_strlit("txt");
    reveal_strlit("vb");
    reveal_strlit("xml");
    reveal_strlit("yaml");
    reveal_strlit("yml");
    reveal_strlit("zsh");
    let e = "jpg"@;
    assert(text_extensions().len() == 58);
    assert(text_extensions()[0][0] != e[0]);
    assert(text_extensions()[1].len() != e.len());
    assert(text_extensions()[2].len() != e.len());
    assert(text_extensions()[3].len() != e.len());
    assert(text_extensions()[4][1] != e[1]);
    assert(text_extensions()[5][0] != e[0]);
    assert(text_extensions()[6].len() != e.len());
    assert(text_extensions()[7].len() != e.len());
    assert(text_extensions()[8].len() != e.len());
    assert(text_extensions()[9].len() != e.len());
    assert(text_extensions()[10].len() != e.len());
    assert(text_extensions()[11][0] != e[0]);
    assert(text_extensions()[12].len() != e.len());
    assert(text_extensions()[13][0] != e[0]);
    assert(text_extensions()[14].len() != e.len());
    assert(text_extensions()[15][0] != e[0]);
    assert(text_extensions()[16].len() != e.len());
    assert(text_extensions()[17].len() != e.len());
    assert(text_extensions()[18][0] != e[0]);
    assert(text_extensions()[19].len() != e.len());
    assert(text_extensions()[20].len() != e.len());
    assert(text_extensions()[21].len() != e.len());
    assert(text_extensions()[22][0] != e[0]);
    assert(text_extensions()[23].len() != e.len());
    assert(text_extensions()[24][0] != e[0]);
    assert(text_extensions()[25][0] != e[0]);
    assert(text_extensions()[26][0] != e[0]);
    assert(text_extensions()[27].len() != e.len());
    assert(text_extensions()[28][0] != e[0]);
    assert(text_extensions()[29].len() != e.len());
    assert(text_extensions()[30][0] != e[0]);
    assert(text_extensions()[31][0] != e[0]);
    assert(text_extensions()[32].len() != e.len());
    assert(text_extensions()[33][0] != e[0]);
    assert(text_extensions()[34].len() != e.len());
    assert(text_extensions()[35][0] != e[0]);
    assert(text_extensions()[36][0] != e[0]);
    assert(text_extensions()[37].len() != e.len());
    assert(text_extensions()[38].len() != e.len());
    assert(text_extensions()[39][0] != e[0]);
    assert(text_extensions()[40].len() != e.len());
    assert(text_extensions()[41].len() != e.len());
    assert(text_extensions()[42][0] != e[0]);
    assert(text_extensions()[43].len() != e.len());
    assert(text_extensions()[44].len() != e.len());
    assert(text_extensions()[45][0] != e[0]);
    assert(text_extensions()[46].len() != e.len());
    assert(text_extensions()[47].len() != e.len());
    assert(text_extensions()[48][0] != e[0]);
    assert(text_extensions()[49].len() != e.len());
    assert(text_extensions()[50][0] != e[0]);
    assert(text_extensions()[51][0] != e[0]);
    assert(text_extensions()[52][0] != e[0]);
    assert(text_extensions()[53].len() != e.len());
    assert(text_extensions()[54].len() != e.len());
    assert(text_extensions()[55][0] != e[0]);
    assert(text_extensions()[56][0] != e[0]);
    assert(text_extensions()[57].len() != e.len());
    lemma_not_listed(text_extensions(), e);
    assert(markdown_extensions().len() == 2);
    assert(markdown_extensions()[0].len() != e.len());
    assert(markdown_extensions()[1].len() != e.len());
    lemma_not_listed(markdown_extensions(), e);
    assert(json_extensions().len() == 2);
    assert(json_extensions()[0].len() != e.len());
    assert(json_extensions()[1].len() != e.len());
    lemma_not_listed(json_extensions(), e);
    assert(pdf_extensions().len() == 1);
    assert(pdf_extensions()[0][0] != e[0]);
    lemma_not_listed(pdf_extensions(), e);
    assert(image_extensions()[1] == e);
}

proof fn lemma_jpeg_is_image()
    ensures
        category_of_extension("jpeg"@) == Some(FileCategory::Image),
{
    reveal_strlit("bash");
    reveal_strlit("bat");
    reveal_strlit("c");
    reveal_strlit("cfg");
    reveal_strlit("cmd");
    reveal_strlit("conf");
    reveal_strlit("cpp");
    reveal_strlit("cs");
    reveal_strlit("css");
    reveal_strlit("dart");
    reveal_strlit("dhall");
    reveal_strlit("erl");
    reveal_strlit("ex");
    reveal_strlit("exs");
    reveal_strlit("fish");
    reveal_strlit("fs");
    reveal_strlit("fsx");
    reveal_strlit("go");
    reveal_strlit("groovy");
    reveal_strlit("h");
    reveal_strlit("hpp");
    reveal_strlit("hrl");
    reveal_strlit("htm");
    reveal_strlit("html");
    reveal_strlit("ini");
    reveal_strlit("java");
    reveal_strlit("jpeg");
    reveal_strlit("js");
    reveal_strlit("json");
    reveal_strlit("jsonc");
    reveal_strlit("jsx");
    reveal_strlit("kt");
    reveal_strlit("kts");
    reveal_strlit("less");
    reveal_strlit("lua");
    reveal_strlit("m");
    reveal_strlit("markdown");
    reveal_strlit("md");
    reveal_strlit("nim");
    reveal_strlit("nix");
    reveal_strlit("pdf");
    reveal_strlit("php");
    reveal_strlit("pl");
    reveal_strlit("pm");
    reveal_strlit("ps1");
    reveal_strlit("py");
    reveal_strlit("r");
    reveal_strlit("rb");
    reveal_strlit("rs");
    reveal_strlit("scala");
    reveal_strlit("scss");
    reveal_strlit("sh");
    reveal_strlit("sql");
    reveal_strlit("swift");
    reveal_strlit("tcl");
    reveal_strlit("toml");
    reveal_strlit("ts");
    reveal_strlit("tsx");
    reveal_strlit("txt");
    reveal_strlit("vb");
    reveal_strlit("xml");
    reveal_strlit("yaml");
    reveal_strlit("yml");
    reveal_strlit("zsh");
    let e = "jpeg"@;
    assert(text_extensions().len() == 58);
    assert(text_extensions()[0].len() != e.len());
    assert(text_extensions()[1].len() != e.len());
    assert(text_extensions()[2].len() != e.len());
    assert(text_extensions()[3].len() != e.len());
    assert(text_extensions()[4].len() != e.len());
    assert(text_extensions()[5].len() != e.len());
    assert(text_extensions()[6].len() != e.len());
    assert(text_extensions()[7].len() != e.len());
    assert(text_extensions()[8].len() != e.len());
    assert(text_extensions()[9][1] != e[1]);
    assert(text_extensions()[10].len() != e.len());
    assert(text_extensions()[11].len() != e.len());
    assert(text_extensions()[12].len() != e.len());
    assert(text_extensions()[13].len() != e.len());
    assert(text_extensions()[14].len() != e.len());
    assert(text_extensions()[15].len() != e.len());
    assert(text_extensions()[16].len() != e.len());
    assert(text_extensions()[17].len() != e.len());
    assert(text_extensions()[18].len() != e.len());
    assert(text_extensions()[19].len() != e.len());
    assert(text_extensions()[20].len() != e.len());
    assert(text_extensions()[21][0] != e[0]);
    assert(text_extensions()[22].len() != e.len());
    assert(text_extensions()[23][0] != e[0]);
    assert(text_extensions()[24].len() != e.len());
    assert(text_extensions()[25].len() != e.len());
    assert(text_extensions()[26].len() != e.len());
    assert(text_extensions()[27][0] != e[0]);
    assert(text_extensions()[28].len() != e.len());
    assert(text_extensions()[29][0] != e[0]);
    assert(text_extensions()[30].len() != e.len());
    assert(text_extensions()[31].len() != e.len());
    assert(text_extensions()[32][0] != e[0]);
    assert(text_extensions()[33].len() != e.len());
    assert(text_extensions()[34][0] != e[0]);
    assert(text_extensions()[35].len() != e.len());
    assert(text_extensions()[36].len() != e.len());
    assert(text_extensions()[37][0] != e[0]);
    assert(text_extensions()[38][0] != e[0]);
    assert(text_extensions()[39].len() != e.len());
    assert(text_extensions()[40].len() != e.len());
    assert(text_extensions()[41].len() != e.len());
    assert(text_extensions()[42].len() != e.len());
    assert(text_extensions()[43].len() != e.len());
    assert(text_extensions()[44].len() != e.len());
    assert(text_extensions()[45].len() != e.len());
    assert(text_extensions()[46].len() != e.len());
    assert(text_extensions()[47].len() != e.len());
    assert(text_extensions()[48].len() != e.len());
    assert(text_extensions()[49].len() != e.len());
    assert(text_extensions()[50].len() != e.len());
    assert(text_extensions()[51].len() != e.len());
    assert(text_extensions()[52].len() != e.len());
    assert(text_extensions()[53][0] != e[0]);
    assert(text_extensions()[54].len() != e.len());
    assert(text_extensions()[55].len() != e.len());
    assert(text_extensions()[56].len() != e.len());
    assert(text_extensions()[57].len() != e.len());
    lemma_not_listed(text_extensions(), e);
    assert(markdown_extensions().len() == 2);
    assert(markdown_extensions()[0].len() != e.len());
    assert(markdown_extensions()[1].len() != e.len());
    lemma_not_listed(markdown_extensions(), e);
    assert(json_extensions().len() == 2);
    assert(json_extensions()[0][1] != e[1]);
    assert(json_extensions()[1].len() != e.len());
    lemma_not_listed(json_extensions(), e);
    assert(pdf_extensions().len() == 1);
    assert(pdf_extensions()[0].len() != e.len());
    lemma_not_listed(pdf_extensions(), e);
    assert(image_extensions()[2] == e);
}

proof fn lemma_gif_is_image()
    ensures
        category_of_extension("gif"@) == Some(FileCategory::Image),
{
    reveal_strlit("bash");
    reveal_strlit("bat");
    reveal_strlit("c");
    reveal_strlit("cfg");
    reveal_strlit("cmd");
    reveal_strlit("conf");
    reveal_strlit("cpp");
    reveal_strlit("cs");
    reveal_strlit("css");
    reveal_strlit("dart");
    reveal_strlit("dhall");
    reveal_strlit("erl");
    reveal_strlit("ex");
    reveal_strlit("exs");
    reveal_strlit("fish");
    reveal_strlit("fs");
    reveal_strlit("fsx");
    reveal_strlit("gif");
    reveal_strlit("go");
    reveal_strlit("groovy");
    reveal_strlit("h");
    reveal_strlit("hpp");
    reveal_strlit("hrl");
    reveal_strlit("htm");
    reveal_strlit("html");
    reveal_strlit("ini");
    reveal_strlit("java");
    reveal_strlit("js");
    reveal_strlit("json");
    reveal_strlit("jsonc");
    reveal_strlit("jsx");
    reveal_strlit("kt");
    reveal_strlit("kts");
    reveal_strlit("less");
    reveal_strlit("lua");
    reveal_strlit("m");
    reveal_strlit("markdown");
    reveal_strlit("md");
    reveal_strlit("nim");
    reveal_strlit("nix");
    reveal_strlit("pdf");
    reveal_strlit("php");
    reveal_strlit("pl");
    reveal_strlit("pm");
    reveal_strlit("ps1");
    reveal_strlit("py");
    reveal_strlit("r");
    reveal_strlit("rb");
    reveal_strlit("rs");
    reveal_strlit("scala");
    reveal_strlit("scss");
    reveal_strlit("sh");
    reveal_strlit("sql");
    reveal_strlit("swift");
    reveal_strlit("tcl");
    reveal_strlit("toml");
    reveal_strlit("ts");
    reveal_strlit("tsx");
    reveal_strlit("txt");
    reveal_strlit("vb");
    reveal_strlit("xml");
    reveal_strlit("yaml");
    reveal_strlit("yml");
    reveal_strlit("zsh");
    let e = "gif"@;
    assert(text_extensions().len() == 58);
    assert(text_extensions()[0][0] != e[0]);
    assert(text_extensions()[1].len() != e.len());
    assert(text_extensions()[2].len() != e.len());
    assert(text_extensions()[3].len() != e.len());
    assert(text_extensions()[4][0] != e[0]);
    assert(text_extensions()[5][0] != e[0]);
    assert(text_extensions()[6].len() != e.len());
    assert(text_extensions()[7].len() != e.len());
    assert(text_extensions()[8].len() != e.len());
    assert(text_extensions()[9].len() != e.len());
    assert(text_extensions()[10].len() != e.len());
    assert(text_extensions()[11][0] != e[0]);
    assert(text_extensions()[12].len() != e.len());
    assert(text_extensions()[13][0] != e[0]);
    assert(text_extensions()[14].len() != e.len());
    assert(text_extensions()[15][0] != e[0]);
    assert(text_extensions()[16].len() != e.len());
    assert(text_extensions()[17].len() != e.len());
    assert(text_extensions()[18][0] != e[0]);
    assert(text_extensions()[19].len() != e.len());
    assert(text_extensions()[20].len() != e.len());
    assert(text_extensions()[21].len() != e.len());
    assert(text_extensions()[22][0] != e[0]);
    assert(text_extensions()[23].len() != e.len());
    assert(text_extensions()[24][0] != e[0]);
    assert(text_extensions()[25][0] != e[0]);
    assert(text_extensions()[26][0] != e[0]);
    assert(text_extensions()[27].len() != e.len());
    assert(text_extensions()[28][0] != e[0]);
    assert(text_extensions()[29].len() != e.len());
    assert(text_extensions()[30][0] != e[0]);
    assert(text_extensions()[31][0] != e[0]);
    assert(text_extensions()[32].len() != e.len());
    assert(text_extensions()[33][0] != e[0]);
    assert(text_extensions()[34].len() != e.len());
    assert(text_extensions()[35][0] != e[0]);
    assert(text_extensions()[36][0] != e[0]);
    assert(text_extensions()[37].len() != e.len());
    assert(text_extensions()[38].len() != e.len());
    assert(text_extensions()[39][0] != e[0]);
    assert(text_extensions()[40].len() != e.len());
    assert(text_extensions()[41].len() != e.len());
    assert(text_extensions()[42][0] != e[0]);
    assert(text_extensions()[43].len() != e.len());
    assert(text_extensions()[44].len() != e.len());
    assert(text_extensions()[45][0] != e[0]);
    assert(text_extensions()[46].len() != e.len());
    assert(text_extensions()[47].len() != e.len());
    assert(text_extensions()[48][0] != e[0]);
    assert(text_extensions()[49].len() != e.len());
    assert(text_extensions()[50][0] != e[0]);
    assert(text_extensions()[51][0] != e[0]);
    assert(text_extensions()[52][0] != e[0]);
    assert(text_extensions()[53].len() != e.len());
    assert(text_extensions()[54].len() != e.len());
    assert(text_extensions()[55][0] != e[0]);
    assert(text_extensions()[56][0] != e[0]);
    assert(text_extensions()[57].len() != e.len());
    lemma_not_listed(text_extensions(), e);
    assert(markdown_extensions().len() == 2);
    assert(markdown_extensions()[0].len() != e.len());
    assert(markdown_extensions()[1].len() != e.len());
    lemma_not_listed(markdown_extensions(), e);
    assert(json_extensions().len() == 2);
    assert(json_extensions()[0].len() != e.len());
    assert(json_extensions()[1].len() != e.len());
    lemma_not_listed(json_extensions(), e);
    assert(pdf_extensions().len() == 1);
    assert(pdf_extensions()[0][0] != e[0]);
    lemma_not_listed(pdf_extensions(), e);
    assert(image_extensions()[3] == e);
}

proof fn lemma_bmp_is_image()
    ensures
        category_of_extension("bmp"@) == Some(FileCategory::Image),
{
    reveal_strlit("bash");
    reveal_strlit("bat");
    reveal_strlit("bmp");
    reveal_strlit("c");
    reveal_strlit("cfg");
    reveal_strlit("cmd");
    reveal_strlit("conf");
    reveal_strlit("cpp");
    reveal_strlit("cs");
    reveal_strlit("css");
    reveal_strlit("dart");
    reveal_strlit("dhall");
    reveal_strlit("erl");
    reveal_strlit("ex");
    reveal_strlit("exs");
    reveal_strlit("fish");
    reveal_strlit("fs");
    reveal_strlit("fsx");
    reveal_strlit("go");
    reveal_strlit("groovy");
    reveal_strlit("h");
    reveal_strlit("hpp");
    reveal_strlit("hrl");
    reveal_strlit("htm");
    reveal_strlit("html");
    reveal_strlit("ini");
    reveal_strlit("java");
    reveal_strlit("js");
    reveal_strlit("json");
    reveal_strlit("jsonc");
    reveal_strlit("jsx");
    reveal_strlit("kt");
    reveal_strlit("kts");
    reveal_strlit("less");
    reveal_strlit("lua");
    reveal_strlit("m");
    reveal_strlit("markdown");
    reveal_strlit("md");
    reveal_strlit("nim");
    reveal_strlit("nix");
    reveal_strlit("pdf");
    reveal_strlit("php");
    reveal_strlit("pl");
    reveal_strlit("pm");
    reveal_strlit("ps1");
    reveal_strlit("py");
    reveal_strlit("r");
    reveal_strlit("rb");
    reveal_strlit("rs");
    reveal_strlit("scala");
    reveal_strlit("scss");
    reveal_strlit("sh");
    reveal_strlit("sql");
    reveal_strlit("swift");
    reveal_strlit("tcl");
    reveal_strlit("toml");
    reveal_strlit("ts");
    reveal_strlit("tsx");
    reveal_strlit("txt");
    reveal_strlit("vb");
    reveal_strlit("xml");
    reveal_strlit("yaml");
    reveal_strlit("yml");
    reveal_strlit("zsh");
    let e = "bmp"@;
    assert(text_extensions().len() == 58);
    assert(text_extensions()[0][0] != e[0]);
    assert(text_extensions()[1].len() != e.len());
    assert(text_extensions()[2].len() != e.len());
    assert(text_extensions()[3].len() != e.len());
    assert(text_extensions()[4][0] != e[0]);
    assert(text_extensions()[5][0] != e[0]);
    assert(text_extensions()[6].len() != e.len());
    assert(text_extensions()[7].len() != e.len());
    assert(text_extensions()[8].len() != e.len());
    assert(text_extensions()[9].len() != e.len());
    assert(text_extensions()[10].len() != e.len());
    assert(text_extensions()[11][0] != e[0]);
    assert(text_extensions()[12].len() != e.len());
    assert(text_extensions()[13][0] != e[0]);
    assert(text_extensions()[14].len() != e.len());
    assert(text_extensions()[15][0] != e[0]);
    assert(text_extensions()[16].len() != e.len());
    assert(text_extensions()[17].len() != e.len());
    assert(text_extensions()[18][0] != e[0]);
    assert(text_extensions()[19].len() != e.len());
    assert(text_extensions()[20].len() != e.len());
    assert(text_extensions()[21].len() != e.len());
    assert(text_extensions()[22][0] != e[0]);
    assert(text_extensions()[23].len() != e.len());
    assert(text_extensions()[24][0] != e[0]);
    assert(text_extensions()[25][1] != e[1]);
    assert(text_extensions()[26][0] != e[0]);
    assert(text_extensions()[27].len() != e.len());
    assert(text_extensions()[28][0] != e[0]);
    assert(text_extensions()[29].len() != e.len());
    assert(text_extensions()[30][0] != e[0]);
    assert(text_extensions()[31][0] != e[0]);
    assert(text_extensions()[32].len() != e.len());
    assert(text_extensions()[33][0] != e[0]);
    assert(text_extensions()[34].len() != e.len());
    assert(text_extensions()[35][0] != e[0]);
    assert(text_extensions()[36][0] != e[0]);
    assert(text_extensions()[37].len() != e.len());
    assert(text_extensions()[38].len() != e.len());
    assert(text_extensions()[39][0] != e[0]);
    assert(text_extensions()[40].len() != e.len());
    assert(text_extensions()[41].len() != e.len());
    assert(text_extensions()[42][0] != e[0]);
    assert(text_extensions()[43].len() != e.len());
    assert(text_extensions()[44].len() != e.len());
    assert(text_extensions()[45][0] != e[0]);
    assert(text_extensions()[46].len() != e.len());
    assert(text_extensions()[47].len() != e.len());
    assert(text_extensions()[48][0] != e[0]);
    assert(text_extensions()[49].len() != e.len());
    assert(text_extensions()[50][0] != e[0]);
    assert(text_extensions()[51][0] != e[0]);
    assert(text_extensions()[52][0] != e[0]);
    assert(text_extensions()[53].len() != e.len());
    assert(text_extensions()[54].len() != e.len());
    assert(text_extensions()[55][0] != e[0]);
    assert(text_extensions()[56][0] != e[0]);
    assert(text_extensions()[57].len() != e.len());
    lemma_not_listed(text_extensions(), e);
    assert(markdown_extensions().len() == 2);
    assert(markdown_extensions()[0].len() != e.len());
    assert(markdown_extensions()[1].len() != e.len());
    lemma_not_listed(markdown_extensions(), e);
    assert(json_extensions().len() == 2);
    assert(json_extensions()[0].len() != e.len());
    assert(json_extensions()[1].len() != e.len());
    lemma_not_listed(json_extensions(), e);
    assert(pdf_extensions().len() == 1);
    assert(pdf_extensions()[0][0] != e[0]);
    lemma_not_listed(pdf_extensions(), e);
    assert(image_extensions()[4] == e);
}

proof fn lemma_webp_is_image()
    ensures
        category_of_extension("webp"@) == Some(FileCategory::Image),
{
    reveal_strlit("bash");
    reveal_strlit("bat");
    reveal_strlit("c");
    reveal_strlit("cfg");
    reveal_strlit("cmd");
    reveal_strlit("conf");
    reveal_strlit("cpp");
    reveal_strlit("cs");
    reveal_strlit("css");
    reveal_strlit("dart");
    reveal_strlit("dhall");
    reveal_strlit("erl");
    reveal_strlit("ex");
    reveal_strlit("exs");
    reveal_strlit("fish");
    reveal_strlit("fs");
    reveal_strlit("fsx");
    reveal_strlit("go");
    reveal_strlit("groovy");
    reveal_strlit("h");
    reveal_strlit("hpp");
    reveal_strlit("hrl");
    reveal_strlit("htm");
    reveal_strlit("html");
    reveal_strlit("ini");
    reveal_strlit("java");
    reveal_strlit("js");
    reveal_strlit("json");
    reveal_strlit("jsonc");
    reveal_strlit("jsx");
    reveal_strlit("kt");
    reveal_strlit("kts");
    reveal_strlit("less");
    reveal_strlit("lua");
    reveal_strlit("m");
    reveal_strlit("markdown");
    reveal_strlit("md");
    reveal_strlit("nim");
    reveal_strlit("nix");
    reveal_strlit("pdf");
    reveal_strlit("php");
    reveal_strlit("pl");
    reveal_strlit("pm");
    reveal_strlit("ps1");
    reveal_strlit("py");
    reveal_strlit("r");
    reveal_strlit("rb");
    reveal_strlit("rs");
    reveal_strlit("scala");
    reveal_strlit("scss");
    reveal_strlit("sh");
    reveal_strlit("sql");
    reveal_strlit("swift");
    reveal_strlit("tcl");
    reveal_strlit("toml");
    reveal_strlit("ts");
    reveal_strlit("tsx");
    reveal_strlit("txt");
    reveal_strlit("vb");
    reveal_strlit("webp");
    reveal_strlit("xml");
    reveal_strlit("yaml");
    reveal_strlit("yml");
    reveal_strlit("zsh");
    let e = "webp"@;
    assert(text_extensions().len() == 58);
    assert(text_extensions()[0].len() != e.len());
    assert(text_extensions()[1].len() != e.len());
    assert(text_extensions()[2].len() != e.len());
    assert(text_extensions()[3].len() != e.len());
    assert(text_extensions()[4].len() != e.len());
    assert(text_extensions()[5].len() != e.len());
    assert(text_extensions()[6].len() != e.len());
    assert(text_extensions()[7].len() != e.len());
    assert(text_extensions()[8].len() != e.len());
    assert(text_extensions()[9][0] != e[0]);
    assert(text_extensions()[10].len() != e.len());
    assert(text_extensions()[11].len() != e.len());
    assert(text_extensions()[12].len() != e.len());
    assert(text_extensions()[13].len() != e.len());
    assert(text_extensions()[14].len() != e.len());
    assert(text_extensions()[15].len() != e.len());
    assert(text_extensions()[16].len() != e.len());
    assert(text_extensions()[17].len() != e.len());
    assert(text_extensions()[18].len() != e.len());
    assert(text_extensions()[19].len() != e.len());
    assert(text_extensions()[20].len() != e.len());
    assert(text_extensions()[21][0] != e[0]);
    assert(text_extensions()[22].len() != e.len());
    assert(text_extensions()[23][0] != e[0]);
    assert(text_extensions()[24].len() != e.len());
    assert(text_extensions()[25].len() != e.len());
    assert(text_extensions()[26].len() != e.len());
    assert(text_extensions()[27][0] != e[0]);
    assert(text_extensions()[28].len() != e.len());
    assert(text_extensions()[29][0] != e[0]);
    assert(text_extensions()[30].len() != e.len());
    assert(text_extensions()[31].len() != e.len());
    assert(text_extensions()[32][0] != e[0]);
    assert(text_extensions()[33].len() != e.len());
    assert(text_extensions()[34][0] != e[0]);
    assert(text_extensions()[35].len() != e.len());
    assert(text_extensions()[36].len() != e.len());
    assert(text_extensions()[37][0] != e[0]);
    assert(text_extensions()[38][0] != e[0]);
    assert(text_extensions()[39].len() != e.len());
    assert(text_extensions()[40].len() != e.len());
    assert(text_extensions()[41].len() != e.len());
    assert(text_extensions()[42].len() != e.len());
    assert(text_extensions()[43].len() != e.len());
    assert(text_extensions()[44].len() != e.len());
    assert(text_extensions()[45].len() != e.len());
    assert(text_extensions()[46].len() != e.len());
    assert(text_extensions()[47].len() != e.len());
    assert(text_extensions()[48].len() != e.len());
    assert(text_extensions()[49].len() != e.len());
    assert(text_extensions()[50].len() != e.len());
    assert(text_extensions()[51].len() != e.len());
    assert(text_extensions()[52].len() != e.len());
    assert(text_extensions()[53][0] != e[0]);
    assert(text_extensions()[54].len() != e.len());
    assert(text_extensions()[55].len() != e.len());
    assert(text_extensions()[56].len() != e.len());
    assert(text_extensions()[57].len() != e.len());
    lemma_not_listed(text_extensions(), e);
    assert(markdown_extensions().len() == 2);
    assert(markdown_extensions()[0].len() != e.len());
    assert(markdown_extensions()[1].len() != e.len());
    lemma_not_listed(markdown_extensions(), e);
    assert(json_extensions().len() == 2);
    assert(json_extensions()[0][0] != e[0]);
    assert(json_extensions()[1].len() != e.len());
    lemma_not_listed(json_extensions(), e);
    assert(pdf_extensions().len() == 1);
    assert(pdf_extensions()[0].len() != e.len());
    lemma_not_listed(pdf_extensions(), e);
    assert(image_extensions()[5] == e);
}

proof fn lemma_svg_is_image()
    ensures
        category_of_extension("svg"@) == Some(FileCategory::Image),
{
    reveal_strlit("bash");
    reveal_strlit("bat");
    reveal_strlit("c");
    reveal_strlit("cfg");
    reveal_strlit("cmd");
    reveal_strlit("conf");
    reveal_strlit("cpp");
    reveal_strlit("cs");
    reveal_strlit("css");
    reveal_strlit("dart");
    reveal_strlit("dhall");
    reveal_strlit("erl");
    reveal_strlit("ex");
    reveal_strlit("exs");
    reveal_strlit("fish");
    reveal_strlit("fs");
    reveal_strlit("fsx");
    reveal_strlit("go");
    reveal_strlit("groovy");
    reveal_strlit("h");
    reveal_strlit("hpp");
    reveal_strlit("hrl");
    reveal_strlit("htm");
    reveal_strlit("html");
    reveal_strlit("ini");
    reveal_strlit("java");
    reveal_strlit("js");
    reveal_strlit("json");
    reveal_strlit("jsonc");
    reveal_strlit("jsx");
    reveal_strlit("kt");
    reveal_strlit("kts");
    reveal_strlit("less");
    reveal_strlit("lua");
    reveal_strlit("m");
    reveal_strlit("markdown");
    reveal_strlit("md");
    reveal_strlit("nim");
    reveal_strlit("nix");
    reveal_strlit("pdf");
    reveal_strlit("php");
    reveal_strlit("pl");
    reveal_strlit("pm");
    reveal_strlit("ps1");
    reveal_strlit("py");
    reveal_strlit("r");
    reveal_strlit("rb");
    reveal_strlit("rs");
    reveal_strlit("scala");
    reveal_strlit("scss");
    reveal_strlit("sh");
    reveal_strlit("sql");
    reveal_strlit("svg");
    reveal_strlit("swift");
    reveal_strlit("tcl");
    reveal_strlit("toml");
    reveal_strlit("ts");
    reveal_strlit("tsx");
    reveal_strlit("txt");
    reveal_strlit("vb");
    reveal_strlit("xml");
    reveal_strlit("yaml");
    reveal_strlit("yml");
    reveal_strlit("zsh");
    let e = "svg"@;
    assert(text_extensions().len() == 58);
    assert(text_extensions()[0][0] != e[0]);
    assert(text_extensions()[1].len() != e.len());
    assert(text_extensions()[2].len() != e.len());
    assert(text_extensions()[3].len() != e.len());
    assert(text_extensions()[4][0] != e[0]);
    assert(text_extensions()[5][0] != e[0]);
    assert(text_extensions()[6].len() != e.len());
    assert(text_extensions()[7].len() != e.len());
    assert(text_extensions()[8].len() != e.len());
    assert(text_extensions()[9].len() != e.len());
    assert(text_extensions()[10].len() != e.len());
    assert(text_extensions()[11][0] != e[0]);
    assert(text_extensions()[12].len() != e.len());
    assert(text_extensions()[13][0] != e[0]);
    assert(text_extensions()[14].len() != e.len());
    assert(text_extensions()[15][0] != e[0]);
    assert(text_extensions()[16].len() != e.len());
    assert(text_extensions()[17].len() != e.len());
    assert(text_extensions()[18][0] != e[0]);
    assert(text_extensions()[19].len() != e.len());
    assert(text_extensions()[20].len() != e.len());
    assert(text_extensions()[21].len() != e.len());
    assert(text_extensions()[22][0] != e[0]);
    assert(text_extensions()[23].len() != e.len());
    assert(text_extensions()[24][0] != e[0]);
    assert(text_extensions()[25][0] != e[0]);
    assert(text_extensions()[26][0] != e[0]);
    assert(text_extensions()[27].len() != e.len());
    assert(text_extensions()[28][0] != e[0]);
    assert(text_extensions()[29].len() != e.len());
    assert(text_extensions()[30][0] != e[0]);
    assert(text_extensions()[31][0] != e[0]);
    assert(text_extensions()[32].len() != e.len());
    assert(text_extensions()[33][0] != e[0]);
    assert(text_extensions()[34].len() != e.len());
    assert(text_extensions()[35][0] != e[0]);
    assert(text_extensions()[36][0] != e[0]);
    assert(text_extensions()[37].len() != e.len());
    assert(text_extensions()[38].len() != e.len());
    assert(text_extensions()[39][1] != e[1]);
    assert(text_extensions()[40].len() != e.len());
    assert(text_extensions()[41].len() != e.len());
    assert(text_extensions()[42][0] != e[0]);
    assert(text_extensions()[43].len() != e.len());
    assert(text_extensions()[44].len() != e.len());
    assert(text_extensions()[45][0] != e[0]);
    assert(text_extensions()[46].len() != e.len());
    assert(text_extensions()[47].len() != e.len());
    assert(text_extensions()[48][0] != e[0]);
    assert(text_extensions()[49].len() != e.len());
    assert(text_extensions()[50][0] != e[0]);
    assert(text_extensions()[51][0] != e[0]);
    assert(text_extensions()[52][0] != e[0]);
    assert(text_extensions()[53].len() != e.len());
    assert(text_extensions()[54].len() != e.len());
    assert(text_extensions()[55][0] != e[0]);
    assert(text_extensions()[56][0] != e[0]);
    assert(text_extensions()[57].len() != e.len());
    lemma_not_listed(text_extensions(), e);
    assert(markdown_extensions().len() == 2);
    assert(markdown_extensions()[0].len() != e.len());
    assert(markdown_extensions()[1].len() != e.len());
    lemma_not_listed(markdown_extensions(), e);
    assert(json_extensions().len() == 2);
    assert(json_extensions()[0].len() != e.len());
    assert(json_extensions()[1].len() != e.len());
    lemma_not_listed(json_extensions(), e);
    assert(pdf_extensions().len() == 1);
    assert(pdf_extensions()[0][0] != e[0]);
    lemma_not_listed(pdf_extensions(), e);
    assert(image_extensions()[6] == e);
}

proof fn lemma_ico_is_image()
    ensures
        category_of_extension("ico"@) == Some(FileCategory::Image),
{
    reveal_strlit("bash");
    reveal_strlit("bat");
    reveal_strlit("c");
    reveal_strlit("cfg");
    reveal_strlit("cmd");
    reveal_strlit("conf");
    reveal_strlit("cpp");
    reveal_strlit("cs");
    reveal_strlit("css");
    reveal_strlit("dart");
    reveal_strlit("dhall");
    reveal_strlit("erl");
    reveal_strlit("ex");
    reveal_strlit("exs");
    reveal_strlit("fish");
    reveal_strlit("fs");
    reveal_strlit("fsx");
    reveal_strlit("go");
    reveal_strlit("groovy");
    reveal_strlit("h");
    reveal_strlit("hpp");
    reveal_strlit("hrl");
    reveal_strlit("htm");
    reveal_strlit("html");
    reveal_strlit("ico");
    reveal_strlit("ini");
    reveal_strlit("java");
    reveal_strlit("js");
    reveal_strlit("json");
    reveal_strlit("jsonc");
    reveal_strlit("jsx");
    reveal_strlit("kt");
    reveal_strlit("kts");
    reveal_strlit("less");
    reveal_strlit("lua");
    reveal_strlit("m");
    reveal_strlit("markdown");
    reveal_strlit("md");
    reveal_strlit("nim");
    reveal_strlit("nix");
    reveal_strlit("pdf");
    reveal_strlit("php");
    reveal_strlit("pl");
    reveal_strlit("pm");
    reveal_strlit("ps1");
    reveal_strlit("py");
    reveal_strlit("r");
    reveal_strlit("rb");
    reveal_strlit("rs");
    reveal_strlit("scala");
    reveal_strlit("scss");
    reveal_strlit("sh");
    reveal_strlit("sql");
    reveal_strlit("swift");
    reveal_strlit("tcl");
    reveal_strlit("toml");
    reveal_strlit("ts");
    reveal_strlit("tsx");
    reveal_strlit("txt");
    reveal_strlit("vb");
    reveal_strlit("xml");
    reveal_strlit("yaml");
    reveal_strlit("yml");
    reveal_strlit("zsh");
    let e = "ico"@;
    assert(text_extensions().len() == 58);
    assert(text_extensions()[0][0] != e[0]);
    assert(text_extensions()[1].len() != e.len());
    assert(text_extensions()[2].len() != e.len());
    assert(text_extensions()[3].len() != e.len());
    assert(text_extensions()[4][0] != e[0]);
    assert(text_extensions()[5][0] != e[0]);
    assert(text_extensions()[6].len() != e.len());
    assert(text_extensions()[7].len() != e.len());
    assert(text_extensions()[8].len() != e.len());
    assert(text_extensions()[9].len() != e.len());
    assert(text_extensions()[10].len() != e.len());
    assert(text_extensions()[11][0] != e[0]);
    assert(text_extensions()[12].len() != e.len());
    assert(text_extensions()[13][0] != e[0]);
    assert(text_extensions()[14].len() != e.len());
    assert(text_extensions()[15][0] != e[0]);
    assert(text_extensions()[16].len() != e.len());
    assert(text_extensions()[17].len() != e.len());
    assert(text_extensions()[18][0] != e[0]);
    assert(text_extensions()[19].len() != e.len());
    assert(text_extensions()[20].len() != e.len());
    assert(text_extensions()[21].len() != e.len());
    assert(text_extensions()[22][0] != e[0]);
    assert(text_extensions()[23].len() != e.len());
    assert(text_extensions()[24][0] != e[0]);
    assert(text_extensions()[25][0] != e[0]);
    assert(text_extensions()[26][0] != e[0]);
    assert(text_extensions()[27].len() != e.len());
    assert(text_extensions()[28][0] != e[0]);
    assert(text_extensions()[29].len() != e.len());
    assert(text_extensions()[30][1] != e[1]);
    assert(text_extensions()[31][0] != e[0]);
    assert(text_extensions()[32].len() != e.len());
    assert(text_extensions()[33][0] != e[0]);
    assert(text_extensions()[34].len() != e.len());
    assert(text_extensions()[35][0] != e[0]);
    assert(text_extensions()[36][0] != e[0]);
    assert(text_extensions()[37].len() != e.len());
    assert(text_extensions()[38].len() != e.len());
    assert(text_extensions()[39][0] != e[0]);
    assert(text_extensions()[40].len() != e.len());
    assert(text_extensions()[41].len() != e.len());
    assert(text_extensions()[42][0] != e[0]);
    assert(text_extensions()[43].len() != e.len());
    assert(text_extensions()[44].len() != e.len());
    assert(text_extensions()[45][0] != e[0]);
    assert(text_extensions()[46].len() != e.len());
    assert(text_extensions()[47].len() != e.len());
    assert(text_extensions()[48][0] != e[0]);
    assert(text_extensions()[49].len() != e.len());
    assert(text_extensions()[50][0] != e[0]);
    assert(text_extensions()[51][0] != e[0]);
    assert(text_extensions()[52][0] != e[0]);
    assert(text_extensions()[53].len() != e.len());
    assert(text_extensions()[54].len() != e.len());
    assert(text_extensions()[55][0] != e[0]);
    assert(text_extensions()[56][0] != e[0]);
    assert(text_extensions()[57].len() != e.len());
    lemma_not_listed(text_extensions(), e);
    assert(markdown_extensions().len() == 2);
    assert(markdown_extensions()[0].len() != e.len());
    assert(markdown_extensions()[1].len() != e.len());
    lemma_not_listed(markdown_extensions(), e);
    assert(json_extensions().len() == 2);
    assert(json_extensions()[0].len() != e.len());
    assert(json_extensions()[1].len() != e.len());
    lemma_not_listed(json_extensions(), e);
    assert(pdf_extensions().len() == 1);
    assert(pdf_extensions()[0][0] != e[0]);
    lemma_not_listed(pdf_extensions(), e);
    assert(image_extensions()[7] == e);
}

proof fn lemma_tiff_is_image()
    ensures
        category_of_extension("tiff"@) == Some(FileCategory::Image),
{
    reveal_strlit("bash");
    reveal_strlit("bat");
    reveal_strlit("c");
    reveal_strlit("cfg");
    reveal_strlit("cmd");
    reveal_strlit("conf");
    reveal_strlit("cpp");
    reveal_strlit("cs");
    reveal_strlit("css");
    reveal_strlit("dart");
    reveal_strlit("dhall");
    reveal_strlit("erl");
    reveal_strlit("ex");
    reveal_strlit("exs");
    reveal_strlit("fish");
    reveal_strlit("fs");
    reveal_strlit("fsx");
    reveal_strlit("go");
    reveal_strlit("groovy");
    reveal_strlit("h");
    reveal_strlit("hpp");
    reveal_strlit("hrl");
    reveal_strlit("htm");
    reveal_strlit("html");
    reveal_strlit("ini");
    reveal_strlit("java");
    reveal_strlit("js");
    reveal_strlit("json");
    reveal_strlit("jsonc");
    reveal_strlit("jsx");
    reveal_strlit("kt");
    reveal_strlit("kts");
    reveal_strlit("less");
    reveal_strlit("lua");
    reveal_strlit("m");
    reveal_strlit("markdown");
    reveal_strlit("md");
    reveal_strlit("nim");
    reveal_strlit("nix");
    reveal_strlit("pdf");
    reveal_strlit("php");
    reveal_strlit("pl");
    reveal_strlit("pm");
    reveal_strlit("ps1");
    reveal_strlit("py");
    reveal_strlit("r");
    reveal_strlit("rb");
    reveal_strlit("rs");
    reveal_strlit("scala");
    reveal_strlit("scss");
    reveal_strlit("sh");
    reveal_strlit("sql");
    reveal_strlit("swift");
    reveal_strlit("tcl");
    reveal_strlit("tiff");
    reveal_strlit("toml");
    reveal_strlit("ts");
    reveal_strlit("tsx");
    reveal_strlit("txt");
    reveal_strlit("vb");
    reveal_strlit("xml");
    reveal_strlit("yaml");
    reveal_strlit("yml");
    reveal_strlit("zsh");
    let e = "tiff"@;
    assert(text_extensions().len() == 58);
    assert(text_extensions()[0].len() != e.len());
    assert(text_extensions()[1].len() != e.len());
    assert(text_extensions()[2].len() != e.len());
    assert(text_extensions()[3].len() != e.len());
    assert(text_extensions()[4].len() != e.len());
    assert(text_extensions()[5].len() != e.len());
    assert(text_extensions()[6].len() != e.len());
    assert(text_extensions()[7].len() != e.len());
    assert(text_extensions()[8].len() != e.len());
    assert(text_extensions()[9][0] != e[0]);
    assert(text_extensions()[10].len() != e.len());
    assert(text_extensions()[11].len() != e.len());
    assert(text_extensions()[12].len() != e.len());
    assert(text_extensions()[13].len() != e.len());
    assert(text_extensions()[14].len() != e.len());
    assert(text_extensions()[15].len() != e.len());
    assert(text_extensions()[16].len() != e.len());
    assert(text_extensions()[17].len() != e.len());
    assert(text_extensions()[18].len() != e.len());
    assert(text_extensions()[19].len() != e.len());
    assert(text_extensions()[20].len() != e.len());
    assert(text_extensions()[21][0] != e[0]);
    assert(text_extensions()[22].len() != e.len());
    assert(text_extensions()[23][0] != e[0]);
    assert(text_extensions()[24].len() != e.len());
    assert(text_extensions()[25].len() != e.len());
    assert(text_extensions()[26].len() != e.len());
    assert(text_extensions()[27][0] != e[0]);
    assert(text_extensions()[28].len() != e.len());
    assert(text_extensions()[29][1] != e[1]);
    assert(text_extensions()[30].len() != e.len());
    assert(text_extensions()[31].len() != e.len());
    assert(text_extensions()[32][0] != e[0]);
    assert(text_extensions()[33].len() != e.len());
    assert(text_extensions()[34][0] != e[0]);
    assert(text_extensions()[35].len() != e.len());
    assert(text_extensions()[36].len() != e.len());
    assert(text_extensions()[37][0] != e[0]);
    assert(text_extensions()[38][0] != e[0]);
    assert(text_extensions()[39].len() != e.len());
    assert(text_extensions()[40].len() != e.len());
    assert(text_extensions()[41].len() != e.len());
    assert(text_extensions()[42].len() != e.len());
    assert(text_extensions()[43].len() != e.len());
    assert(text_extensions()[44].len() != e.len());
    assert(text_extensions()[45].len() != e.len());
    assert(text_extensions()[46].len() != e.len());
    assert(text_extensions()[47].len() != e.len());
    assert(text_extensions()[48].len() != e.len());
    assert(text_extensions()[49].len() != e.len());
    assert(text_extensions()[50].len() != e.len());
    assert(text_extensions()[51].len() != e.len());
    assert(text_extensions()[52].len() != e.len());
    assert(text_extensions()[53][0] != e[0]);
    assert(text_extensions()[54].len() != e.len());
    assert(text_extensions()[55].len() != e.len());
    assert(text_extensions()[56].len() != e.len());
    assert(text_extensions()[57].len() != e.len());
    lemma_not_listed(text_extensions(), e);
    assert(markdown_extensions().len() == 2);
    assert(markdown_extensions()[0].len() != e.len());
    assert(markdown_extensions()[1].len() != e.len());
    lemma_not_listed(markdown_extensions(), e);
    assert(json_extensions().len() == 2);
    assert(json_extensions()[0][0] != e[0]);
    assert(json_extensions()[1].len() != e.len());
    lemma_not_listed(json_extensions(), e);
    assert(pdf_extensions().len() == 1);
    assert(pdf_extensions()[0].len() != e.len());
    lemma_not_listed(pdf_extensions(), e);
    assert(image_extensions()[8] == e);
}

proof fn lemma_tif_is_image()
    ensures
        category_of_extension("tif"@) == Some(FileCategory::Image),
{
    reveal_strlit("bash");
    reveal_strlit("bat");
    reveal_strlit("c");
    reveal_strlit("cfg");
    reveal_strlit("cmd");
    reveal_strlit("conf");
    reveal_strlit("cpp");
    reveal_strlit("cs");
    reveal_strlit("css");
    reveal_strlit("dart");
    reveal_strlit("dhall");
    reveal_strlit("erl");
    reveal_strlit("ex");
    reveal_strlit("exs");
    reveal_strlit("fish");
    reveal_strlit("fs");
    reveal_strlit("fsx");
    reveal_strlit("go");
    reveal_strlit("groovy");
    reveal_strlit("h");
    reveal_strlit("hpp");
    reveal_strlit("hrl");
    reveal_strlit("htm");
    reveal_strlit("html");
    reveal_strlit("ini");
    reveal_strlit("java");
    reveal_strlit("js");
    reveal_strlit("json");
    reveal_strlit("jsonc");
    reveal_strlit("jsx");
    reveal_strlit("kt");
    reveal_strlit("kts");
    reveal_strlit("less");
    reveal_strlit("lua");
    reveal_strlit("m");
    reveal_strlit("markdown");
    reveal_strlit("md");
    reveal_strlit("nim");
    reveal_strlit("nix");
    reveal_strlit("pdf");
    reveal_strlit("php");
    reveal_strlit("pl");
    reveal_strlit("pm");
    reveal_strlit("ps1");
    reveal_strlit("py");
    reveal_strlit("r");
    reveal_strlit("rb");
    reveal_strlit("rs");
    reveal_strlit("scala");
    reveal_strlit("scss");
    reveal_strlit("sh");
    reveal_strlit("sql");
    reveal_strlit("swift");
    reveal_strlit("tcl");
    reveal_strlit("tif");
    reveal_strlit("toml");
    reveal_strlit("ts");
    reveal_strlit("tsx");
    reveal_strlit("txt");
    reveal_strlit("vb");
    reveal_strlit("xml");
    reveal_strlit("yaml");
    reveal_strlit("yml");
    reveal_strlit("zsh");
    let e = "tif"@;
    assert(text_extensions().len() == 58);
    assert(text_extensions()[0][1] != e[1]);
    assert(text_extensions()[1].len() != e.len());
    assert(text_extensions()[2].len() != e.len());
    assert(text_extensions()[3].len() != e.len());
    assert(text_extensions()[4][0] != e[0]);
    assert(text_extensions()[5][1] != e[1]);
    assert(text_extensions()[6].len() != e.len());
    assert(text_extensions()[7].len() != e.len());
    assert(text_extensions()[8].len() != e.len());
    assert(text_extensions()[9].len() != e.len());
    assert(text_extensions()[10].len() != e.len());
    assert(text_extensions()[11][0] != e[0]);
    assert(text_extensions()[12].len() != e.len());
    assert(text_extensions()[13][0] != e[0]);
    assert(text_extensions()[14].len() != e.len());
    assert(text_extensions()[15][0] != e[0]);
    assert(text_extensions()[16].len() != e.len());
    assert(text_extensions()[17].len() != e.len());
    assert(text_extensions()[18][0] != e[0]);
    assert(text_extensions()[19].len() != e.len());
    assert(text_extensions()[20].len() != e.len());
    assert(text_extensions()[21].len() != e.len());
    assert(text_extensions()[22][0] != e[0]);
    assert(text_extensions()[23].len() != e.len());
    assert(text_extensions()[24][0] != e[0]);
    assert(text_extensions()[25][0] != e[0]);
    assert(text_extensions()[26][0] != e[0]);
    assert(text_extensions()[27].len() != e.len());
    assert(text_extensions()[28][0] != e[0]);
    assert(text_extensions()[29].len() != e.len());
    assert(text_extensions()[30][0] != e[0]);
    assert(text_extensions()[31][0] != e[0]);
    assert(text_extensions()[32].len() != e.len());
    assert(text_extensions()[33][0] != e[0]);
    assert(text_extensions()[34].len() != e.len());
    assert(text_extensions()[35][0] != e[0]);
    assert(text_extensions()[36][0] != e[0]);
    assert(text_extensions()[37].len() != e.len());
    assert(text_extensions()[38].len() != e.len());
    assert(text_extensions()[39][0] != e[0]);
    assert(text_extensions()[40].len() != e.len());
    assert(text_extensions()[41].len() != e.len());
    assert(text_extensions()[42][0] != e[0]);
    assert(text_extensions()[43].len() != e.len());
    assert(text_extensions()[44].len() != e.len());
    assert(text_extensions()[45][1] != e[1]);
    assert(text_extensions()[46].len() != e.len());
    assert(text_extensions()[47].len() != e.len());
    assert(text_extensions()[48][0] != e[0]);
    assert(text_extensions()[49].len() != e.len());
    assert(text_extensions()[50][0] != e[0]);
    assert(text_extensions()[51][0] != e[0]);
    assert(text_extensions()[52][0] != e[0]);
    assert(text_extensions()[53].len() != e.len());
    assert(text_extensions()[54].len() != e.len());
    assert(text_extensions()[55][0] != e[0]);
    assert(text_extensions()[56][0] != e[0]);
    assert(text_extensions()[57].len() != e.len());
    lemma_not_listed(text_extensions(), e);
    assert(markdown_extensions().len() == 2);
    assert(markdown_extensions()[0].len() != e.len());
    assert(markdown_extensions()[1].len() != e.len());
    lemma_not_listed(markdown_extensions(), e);
    assert(json_extensions().len() == 2);
    assert(json_extensions()[0].len() != e.len());
    assert(json_extensions()[1].len() != e.len());
    lemma_not_listed(json_extensions(), e);
    assert(pdf_extensions().len() == 1);
    assert(pdf_extensions()[0][0] != e[0]);
    lemma_not_listed(pdf_extensions(), e);
    assert(image_extensions()[9] == e);
}

/// Law: the image extensions png, jpg, jpeg, gif, bmp, webp, svg, ico, tiff
/// and tif each stand for an image.
pub proof fn law_image_extensions()
    ensures
        category_of_extension("png"@) == Some(FileCategory::Image),
        category_of_extension("jpg"@) == Some(FileCategory::Image),
        category_of_extension("jpeg"@) == Some(FileCategory::Image),
        category_of_extension("gif"@) == Some(FileCategory::Image),
        category_of_extension("bmp"@) == Some(FileCategory::Image),
        category_of_extension("webp"@) == Some(FileCategory::Image),
        category_of_extension("svg"@) == Some(FileCategory::Image),
        category_of_extension("ico"@) == Some(FileCategory::Image),
        category_of_extension("tiff"@) == Some(FileCategory::Image),
        category_of_extension("tif"@) == Some(FileCategory::Image),
{
    lemma_png_is_image();
    lemma_jpg_is_image();
    lemma_jpeg_is_image();
    lemma_gif_is_image();
    lemma_bmp_is_image();
    lemma_webp_is_image();
    lemma_svg_is_image();
    lemma_ico_is_image();
    lemma_tiff_is_image();
    lemma_tif_is_image();
}

/// The category given by a path's extension (lower-cased), if known.
pub open spec fn extension_category(path: Seq<char>) -> Option<FileCategory> {
    match path_extension(path) {
        Some(e) => category_of_extension(lowercase_of(e)),
        None => None,
    }
}

/// Whether `e` is one of the listed strings.
fn in_list(e: &[char], list: &[&str]) -> (r: bool)
    ensures
        r == list@.map_values(|s: &str| s@).contains(e@),
{
    let ghost views = list@.map_values(|s: &str| s@);
    let mut i: usize = 0;
    while i < list.len()
        invariant
            i <= list.len(),
            views == list@.map_values(|s: &str| s@),
            forall|k: int| 0 <= k < i ==> views[k] != e@,
        decreases list.len() - i,
    {
        if eq_str(e, list[i]) {
            assert(views[i as int] == e@);
            return true;
        }
        i += 1;
    }
    proof {
        if views.contains(e@) {
            let k = choose|k: int| 0 <= k < views.len() && views[k] == e@;
            assert(views[k] != e@);
        }
    }
    false
}

fn category_of(e: &[char]) -> (r: Option<FileCategory>)
    ensures
        r == category_of_extension(e@),
{
    let text: [&str; 58] = [
        "txt", "rs", "js", "ts", "jsx", "tsx", "py", "rb", "go", "java", "c", "cpp",
        "h", "hpp", "cs", "php", "swift", "kt", "kts", "scala", "sh", "bash", "zsh",
        "fish", "ps1", "bat", "cmd", "yaml", "yml", "toml", "ini", "cfg", "conf",
        "xml", "html", "htm", "css", "scss", "less", "sql", "r", "m", "lua",
        "pl", "pm", "tcl", "vb", "fs", "fsx", "ex", "exs", "erl", "hrl",
        "dart", "groovy", "nim", "nix", "dhall",
    ];
    assert(text@.map_values(|s: &str| s@) =~= text_extensions());
    if in_list(e, &text) {
        return Some(FileCategory::Text);
    }
    let md: [&str; 2] = ["md", "markdown"];
    assert(md@.map_values(|s: &str| s@) =~= markdown_extensions());
    if in_list(e, &md) {
        return Some(FileCategory::Markdown);
    }
    let json: [&str; 2] = ["json", "jsonc"];
    assert(json@.map_values(|s: &str| s@) =~= json_extensions());
    if in_list(e, &json) {
        return Some(FileCategory::Json);
    }
    let pdf: [&str; 1] = ["pdf"];
    assert(pdf@.map_values(|s: &str| s@) =~= pdf_extensions());
    if in_list(e, &pdf) {
        return Some(FileCategory::Pdf);
    }
    let image: [&str; 14] = [
        "png", "jpg", "jpeg", "gif", "bmp", "webp", "svg", "ico", "tiff", "tif",
        "avif", "jxl", "heic", "heif",
    ];
    assert(image@.map_values(|s: &str| s@) =~= image_extensions());
    if in_list(e, &image) {
        return Some(FileCategory::Image);
    }
    let binary: [&str; 34] = [
        "zip", "tar", "gz", "rar", "7z", "bz2", "xz", "zst", "exe", "dll",
        "so", "dylib", "bin", "dat", "db", "sqlite", "mdb", "woff", "woff2",
        "ttf", "otf", "eot", "mp3", "mp4", "avi", "mov", "wmv", "flv",
        "mkv", "webm", "wav", "ogg", "flac", "aac",
    ];
    assert(binary@.map_values(|s: &str| s@) =~= binary_extensions());
    if in_list(e, &binary) {
        return Some(FileCategory::Binary);
    }
    None
}

/// The PDF, PNG, JPEG, GIF and BMP magic byte prefixes.
pub open spec fn has_prefix(content: Seq<u8>, p: Seq<u8>) -> bool {
    p.len() <= content.len() && content.subrange(0, p.len() as int) == p
}

/// The category recognized from the first bytes of the content, if any.
pub open spec fn magic_category(content: Seq<u8>) -> Option<FileCategory> {
    if has_prefix(content, seq![0x25u8, 0x50u8, 0x44u8, 0x46u8, 0x2Du8]) {
        Some(FileCategory::Pdf)
    } else if has_prefix(
        content,
        seq![0x89u8, 0x50u8, 0x4Eu8, 0x47u8, 0x0Du8, 0x0Au8, 0x1Au8, 0x0Au8],
    ) || has_prefix(content, seq![0xFFu8, 0xD8u8, 0xFFu8]) || has_prefix(
        content,
        seq![0x47u8, 0x49u8, 0x46u8, 0x38u8],
    ) || has_prefix(content, seq![0x42u8, 0x4Du8]) || (content.len() > 12 && content.subrange(0, 4)
        == seq![0x52u8, 0x49u8, 0x46u8, 0x46u8] && content.subrange(8, 12) == seq![
        0x57u8,
        0x45u8,
        0x42u8,
        0x50u8,
    ]) {
        Some(FileCategory::Image)
    } else {
        None
    }
}

/// Whether `content` starts with `p`.
fn bytes_start_with(content: &[u8], p: &[u8]) -> (r: bool)
    ensures
        r == has_prefix(content@, p@),
{
    if p.len() > content.len() {
        return false;
    }
    let mut i: usize = 0;
    while i < p.len()
        invariant
            i <= p.len() <= content.len(),
            forall|k: int| 0 <= k < i ==> content@[k] == p@[k],
        decreases p.len() - i,
    {
        if content[i] != p[i] {
            assert(content@.subrange(0, p.len() as int)[i as int] != p@[i as int]);
            return false;
        }
        i += 1;
    }
    assert(content@.subrange(0, p.len() as int) =~= p@);
    true
}

/// Detects file types.
pub struct FileTypeDetector;

impl FileTypeDetector {
    /// Category from the path's extension; unknown or missing extensions are
    /// treated as text.
    pub fn detect_from_path(path: &str) -> (r: Result<FileCategory, String>)
        ensures
            r == Ok::<FileCategory, String>(
                match extension_category(path@) {
                    Some(c) => c,
                    None => FileCategory::Text,
                },
            ),
    {
        match Self::detect_from_extension(path) {
            Some(c) => Ok(c),
            None => Ok(FileCategory::Text),
        }
    }

    /// Category from the path's extension, compared case-insensitively.
    pub fn detect_from_extension(path: &str) -> (r: Option<FileCategory>)
        ensures
            r == extension_category(path@),
    {
        match extension_of(path) {
            None => None,
            Some(ext) => {
                let lower = to_lowercase(ext.as_str());
                let e = chars_of(lower.as_str());
                category_of(e.as_slice())
            },
        }
    }

    /// Category from magic bytes (PDF; PNG, JPEG, GIF, BMP, WebP images);
    /// otherwise valid UTF-8 is text, refined by the extension, and anything
    /// else is binary.
    pub fn detect_from_content(path: &str, content: &[u8]) -> (r: Result<FileCategory, String>)
        ensures
            r == Ok::<FileCategory, String>(
                match magic_category(content@) {
                    Some(c) => c,
                    None => if valid_utf8(content@) {
                        match extension_category(path@) {
                            Some(c) => c,
                            None => FileCategory::Text,
                        }
                    } else {
                        FileCategory::Binary
                    },
                },
            ),
    {
        let pdf: [u8; 5] = [0x25, 0x50, 0x44, 0x46, 0x2D];
        assert(pdf@ =~= seq![0x25u8, 0x50u8, 0x44u8, 0x46u8, 0x2Du8]);
        if bytes_start_with(content, &pdf) {
            return Ok(FileCategory::Pdf);
        }
        let png: [u8; 8] = [0x89, 0x50, 0x4E, 0x47, 0x0D, 0x0A, 0x1A, 0x0A];
        assert(png@ =~= seq![0x89u8, 0x50u8, 0x4Eu8, 0x47u8, 0x0Du8, 0x0Au8, 0x1Au8, 0x0Au8]);
        let jpeg: [u8; 3] = [0xFF, 0xD8, 0xFF];
        assert(jpeg@ =~= seq![0xFFu8, 0xD8u8, 0xFFu8]);
        let gif: [u8; 4] = [0x47, 0x49, 0x46, 0x38];
        assert(gif@ =~= seq![0x47u8, 0x49u8, 0x46u8, 0x38u8]);
        let bmp: [u8; 2] = [0x42, 0x4D];
        assert(bmp@ =~= seq![0x42u8, 0x4Du8]);
        if bytes_start_with(content, &png) || bytes_start_with(content, &jpeg) || bytes_start_with(
            content,
            &gif,
        ) || bytes_start_with(content, &bmp) {
            return Ok(FileCategory::Image);
        }
        if content.len() > 12 && content[0] == 0x52 && content[1] == 0x49 && content[2] == 0x46
            && content[3] == 0x46 && content[8] == 0x57 && content[9] == 0x45 && content[10] == 0x42
            && content[11] == 0x50 {
            assert(content@.subrange(0, 4) =~= seq![0x52u8, 0x49u8, 0x46u8, 0x46u8]);
            assert(content@.subrange(8, 12) =~= seq![0x57u8, 0x45u8, 0x42u8, 0x50u8]);
            return Ok(FileCategory::Image);
        }
        proof {
            if content.len() > 12 && content@.subrange(0, 4) == seq![0x52u8, 0x49u8, 0x46u8, 0x46u8]
                && content@.subrange(8, 12) == seq![0x57u8, 0x45u8, 0x42u8, 0x50u8] {
                assert(content@[0] == content@.subrange(0, 4)[0]);
                assert(content@[1] == content@.subrange(0, 4)[1]);
                assert(content@[2] == content@.subrange(0, 4)[2]);
                assert(content@[3] == content@.subrange(0, 4)[3]);
                assert(content@[8] == content@.subrange(8, 12)[0]);
                assert(content@[9] == content@.subrange(8, 12)[1]);
                assert(content@[10] == content@.subrange(8, 12)[2]);
                assert(content@[11] == content@.subrange(8, 12)[3]);
            }
        }
        if is_valid_utf8(content) {
            if let Some(category) = Self::detect_from_extension(path) {
                return Ok(category);
            }
            return Ok(FileCategory::Text);
        }
        Ok(FileCategory::Binary)
    }

    /// Whether a file of this size and category is base64 encoded: images up
    /// to 5MB, PDFs and binaries up to 1MB, text never.
    pub fn can_encode_base64(size: usize, category: FileCategory) -> (r: bool)
        ensures
            r == match category {
                FileCategory::Image => size <= MAX_BASE64_SIZE * 5,
                FileCategory::Pdf => size <= MAX_BASE64_SIZE,
                FileCategory::Binary => size <= MAX_BASE64_SIZE,
                _ => false,
            },
    {
        match category {
            FileCategory::Image => size <= MAX_BASE64_SIZE * 5,
            FileCategory::Pdf => size <= MAX_BASE64_SIZE,
            FileCategory::Binary => size <= MAX_BASE64_SIZE,
            _ => false,
        }
    }
}

} // verus!
