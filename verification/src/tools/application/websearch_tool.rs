//! Web search tool: reads its arguments, builds the JSON-RPC request for
//! the search service, and reads the answer out of the service's
//! server-sent events.  The HTTP exchange, and the parsing of each event's
//! JSON payload, are left to the caller.
use vstd::prelude::*;
use crate::text::{chars_of, extend_str, lines, lines_of, opt_chars, skip_chars, starts_with, starts_with_str, string_of, views};
use crate::tools::domain::json_builder::{nested, object, text, uint};
use crate::tools::domain::json_value::{
    jarray, jget, jstr, json_view, ju64, str_member, uint_member, JsonNumber, JsonValue, JsonView, NumberView,
};
use crate::tools::domain::xml_builder::{success_xml, XmlBuilder};

verus! {

/// Number of results asked for when none is given.
pub const DEFAULT_NUM_RESULTS: u8 = 8;


/// Timeout of a web search request, in seconds.
pub const WEBSEARCH_TIMEOUT_SECS: u64 = 25;

/// Web search tool.
pub struct WebSearchTool;

/// Arguments of a web search.
#[derive(Debug)]
pub struct WebSearchArgs {
    pub query: String,
    pub num_results: u8,
    pub livecrawl: Option<String>,
    pub search_type: Option<String>,
    pub context_max_characters: Option<u64>,
}

/// What the tool makes of its arguments: the query (required), the number
/// of results (8 by default; a larger number is kept by its low eight bits),
/// and the optional live-crawl mode, search type and context size.
pub open spec fn websearch_parse(v: JsonView) -> Result<
    (Seq<char>, u8, Option<Seq<char>>, Option<Seq<char>>, Option<u64>),
    Seq<char>,
> {
    match jstr(jget(v, "query"@)) {
        None => Err("Missing 'query' argument"@),
        Some(q) => Ok(
            (
                q,
                match ju64(jget(v, "numResults"@)) {
                    Some(n) => n as u8,
                    None => DEFAULT_NUM_RESULTS,
                },
                jstr(jget(v, "livecrawl"@)),
                jstr(jget(v, "type"@)),
                ju64(jget(v, "contextMaxCharacters"@)),
            ),
        ),
    }
}

/// The arguments as the parse gives them.
pub open spec fn websearch_args_view(a: WebSearchArgs) -> (
    Seq<char>,
    u8,
    Option<Seq<char>>,
    Option<Seq<char>>,
    Option<u64>,
) {
    (a.query@, a.num_results, opt_chars(a.livecrawl), opt_chars(a.search_type), a.context_max_characters)
}

/// The JSON-RPC request of a web search: live crawl `fallback` and search
/// type `auto` unless given; an absent context size is `null`.
pub open spec fn websearch_request(
    query: Seq<char>,
    num_results: u8,
    livecrawl: Option<Seq<char>>,
    search_type: Option<Seq<char>>,
    context_max_characters: Option<u64>,
) -> JsonView {
    rpc_call(
        "web_search_exa"@,
        JsonView::Object(
            seq![
                str_member("query"@, query),
                uint_member("numResults"@, num_results as u64),
                str_member(
                    "livecrawl"@,
                    match livecrawl {
                        Some(l) => l,
                        None => "fallback"@,
                    },
                ),
                str_member(
                    "type"@,
                    match search_type {
                        Some(t) => t,
                        None => "auto"@,
                    },
                ),
                (
                    "contextMaxCharacters"@,
                    match context_max_characters {
                        Some(c) => JsonView::Number(NumberView::PosInt(c)),
                        None => JsonView::Null,
                    },
                ),
            ],
        ),
    )
}

/// A `tools/call` request of the search service for the named tool.
pub open spec fn rpc_call(name: Seq<char>, arguments: JsonView) -> JsonView {
    JsonView::Object(
        seq![
            str_member("jsonrpc"@, "2.0"@),
            uint_member("id"@, 1),
            str_member("method"@, "tools/call"@),
            ("params"@, JsonView::Object(seq![str_member("name"@, name), ("arguments"@, arguments)])),
        ],
    )
}

/// The payloads of the `data: ` lines among `ls`, in order.
pub open spec fn data_payloads(ls: Seq<Seq<char>>) -> Seq<Seq<char>>
    decreases ls.len(),
{
    if ls.len() == 0 {
        Seq::empty()
    } else {
        let rest = data_payloads(ls.drop_last());
        let l = ls.last();
        if starts_with(l, "data: "@) {
            rest.push(l.subrange(6, l.len() as int))
        } else {
            rest
        }
    }
}

/// The text of an event: `result.content[0].text`, where it is a string.
pub open spec fn result_text(v: JsonView) -> Option<Seq<char>> {
    match jget(v, "result"@) {
        Some(r) => match jarray(jget(r, "content"@)) {
            Some(items) => if items.len() > 0 {
                jstr(jget(items[0], "text"@))
            } else {
                None
            },
            None => None,
        },
        None => None,
    }
}

/// The text of an event payload that parsed (`Some`), or none.
pub open spec fn parsed_text(p: Option<JsonValue>) -> Option<Seq<char>> {
    match p {
        Some(v) => result_text(json_view(v)),
        None => None,
    }
}

/// The first text among the parsed payloads, in order.
pub open spec fn first_text(ps: Seq<Option<JsonValue>>) -> Option<Seq<char>>
    decreases ps.len(),
{
    if ps.len() == 0 {
        None
    } else {
        match parsed_text(ps[0]) {
            Some(t) => Some(t),
            None => first_text(ps.drop_first()),
        }
    }
}

/// The answer read from the events: the first text found, or `fallback`
/// when none is found or the first one is empty.
pub open spec fn search_output_of(ps: Seq<Option<JsonValue>>, fallback: Seq<char>) -> Seq<char> {
    match first_text(ps) {
        Some(t) => if t.len() > 0 {
            t
        } else {
            fallback
        },
        None => fallback,
    }
}

/// The payloads of the `data: ` lines of a server-sent event stream, in
/// order, each without its `data: ` prefix.
pub fn sse_payloads(response_text: &str) -> (r: Vec<String>)
    ensures
        r@.map_values(|s: String| s@) == data_payloads(lines(response_text@)),
{
    let c = chars_of(response_text);
    let ls = lines_of(c.as_slice());
    let mut r: Vec<String> = Vec::new();
    let mut i: usize = 0;
    proof {
        reveal_strlit("data: ");
    }
    while i < ls.len()
        invariant
            i <= ls@.len(),
            views(ls@) == lines(response_text@),
            r@.map_values(|s: String| s@) == data_payloads(views(ls@).subrange(0, i as int)),
        decreases ls.len() - i,
    {
        let ghost before = views(ls@).subrange(0, i as int);
        let ghost after = views(ls@).subrange(0, i + 1);
        assert(after.drop_last() =~= before);
        assert(after.last() == ls@[i as int]@);
        let l = &ls[i];
        proof {
            reveal_strlit("data: ");
        }
        if starts_with_str(l.as_slice(), "data: ") {
            let p = skip_chars(l.as_slice(), 6);
            let s = string_of(p.as_slice());
            let ghost old_r = r@;
            r.push(s);
            assert(r@.map_values(|s: String| s@) =~= old_r.map_values(|s: String| s@).push(s@));
        }
        i += 1;
    }
    assert(views(ls@).subrange(0, ls@.len() as int) =~= views(ls@));
    r
}

/// The text of one parsed event payload.
fn payload_text(v: &JsonValue) -> (r: Option<&str>)
    ensures
        match (r, result_text(v@)) {
            (Some(s), Some(t)) => s@ == t,
            (None, None) => true,
            _ => false,
        },
{
    let res = match v.get("result") {
        Some(x) => x,
        None => return None,
    };
    let items = match res.get("content") {
        Some(c) => match c.as_array() {
            Some(a) => a,
            None => return None,
        },
        None => return None,
    };
    if items.len() == 0 {
        return None;
    }
    proof {
        crate::tools::domain::json_value::lemma_array_view(items@);
    }
    match items[0].get("text") {
        Some(t) => t.as_str(),
        None => None,
    }
}

/// The answer read from the parsed payloads of the `data: ` lines (`None`
/// for one that is not JSON): the text of the first event that carries
/// one, or `fallback` when none does or that text is empty.
pub fn search_output(parsed: &[Option<JsonValue>], fallback: &str) -> (r: String)
    ensures
        r@ == search_output_of(parsed@, fallback@),
{
    let mut i: usize = 0;
    assert(parsed@.subrange(0, parsed@.len() as int) =~= parsed@);
    while i < parsed.len()
        invariant
            i <= parsed@.len(),
            first_text(parsed@) == first_text(parsed@.subrange(i as int, parsed@.len() as int)),
        decreases parsed.len() - i,
    {
        let ghost rest = parsed@.subrange(i as int, parsed@.len() as int);
        assert(rest[0] == parsed@[i as int]);
        assert(rest.drop_first() =~= parsed@.subrange(i + 1, parsed@.len() as int));
        match &parsed[i] {
            Some(v) => {
                match payload_text(v) {
                    Some(t) => {
                        let tc = chars_of(t);
                        if tc.len() > 0 {
                            return t.to_owned();
                        }
                        return fallback.to_owned();
                    },
                    None => {},
                }
            },
            None => {},
        }
        i += 1;
    }
    assert(parsed@.subrange(i as int, parsed@.len() as int).len() == 0);
    fallback.to_owned()
}

impl WebSearchTool {
    /// A web search tool.
    pub fn new() -> (r: Self) {
        WebSearchTool
    }

    /// Reads the arguments.
    pub fn parse_args(args: &JsonValue) -> (r: Result<WebSearchArgs, String>)
        ensures
            match (r, websearch_parse(args@)) {
                (Ok(a), Ok(v)) => websearch_args_view(a) == v,
                (Err(m), Err(e)) => m@ == e,
                _ => false,
            },
    {
        let query = match args.get_str("query") {
            Some(q) => q,
            None => return Err("Missing 'query' argument".to_owned()),
        };
        let num_results: u8 = match args.get_u64("numResults") {
            Some(n) => #[verifier::truncate] (n as u8),
            None => DEFAULT_NUM_RESULTS,
        };
        let livecrawl = match args.get_str("livecrawl") {
            Some(l) => Some(l.to_owned()),
            None => None,
        };
        let search_type = match args.get_str("type") {
            Some(t) => Some(t.to_owned()),
            None => None,
        };
        let context_max_characters = args.get_u64("contextMaxCharacters");
        Ok(WebSearchArgs { query: query.to_owned(), num_results, livecrawl, search_type, context_max_characters })
    }

    /// The JSON-RPC request for the search service.
    pub fn request_body(args: &WebSearchArgs) -> (r: JsonValue)
        ensures
            r@ == websearch_request(
                args.query@,
                args.num_results,
                opt_chars(args.livecrawl),
                opt_chars(args.search_type),
                args.context_max_characters,
            ),
    {
        let livecrawl: &str = match &args.livecrawl {
            Some(l) => l.as_str(),
            None => "fallback",
        };
        let search_type: &str = match &args.search_type {
            Some(t) => t.as_str(),
            None => "auto",
        };
        let ctx = match args.context_max_characters {
            Some(c) => JsonValue::Number(JsonNumber::PosInt(c)),
            None => JsonValue::Null,
        };
        let mut a: Vec<(String, JsonValue)> = Vec::new();
        a.push(text("query", args.query.as_str()));
        a.push(uint("numResults", args.num_results as u64));
        a.push(text("livecrawl", livecrawl));
        a.push(text("type", search_type));
        a.push(nested("contextMaxCharacters", ctx));
        let arguments = object(a);
        let r = rpc_request("web_search_exa", arguments);
        assert(r@ == websearch_request(
            args.query@,
            args.num_results,
            opt_chars(args.livecrawl),
            opt_chars(args.search_type),
            args.context_max_characters,
        )) by {
            if let JsonView::Object(x) = websearch_request(
                args.query@,
                args.num_results,
                opt_chars(args.livecrawl),
                opt_chars(args.search_type),
                args.context_max_characters,
            ) {
                if let JsonView::Object(p) = x[3].1 {
                    if let JsonView::Object(q) = p[1].1 {
                        assert(crate::tools::domain::json_value::members_view(a@) =~= q);
                    }
                }
            }
        }
        r
    }

    /// The answer when no event carried a result.
    pub fn no_results() -> (r: String)
        ensures
            r@ == "No search results found. Please try a different query."@,
    {
        "No search results found. Please try a different query.".to_owned()
    }

    /// The error when the request could not be sent.
    pub fn request_failed(error: &str) -> (r: String)
        ensures
            r@ == "Search request failed: "@ + error@,
    {
        let mut m: Vec<char> = Vec::new();
        extend_str(&mut m, "Search request failed: ");
        extend_str(&mut m, error);
        string_of(m.as_slice())
    }

    /// The error when the service answered with a failure status.
    pub fn status_failed(status: &str, body: &str) -> (r: String)
        ensures
            r@ == "Search error ("@ + status@ + "): "@ + body@,
    {
        let mut m: Vec<char> = Vec::new();
        extend_str(&mut m, "Search error (");
        extend_str(&mut m, status);
        extend_str(&mut m, "): ");
        extend_str(&mut m, body);
        string_of(m.as_slice())
    }

    /// The answer: titled with the query, the search output as summary.
    pub fn response(args: &WebSearchArgs, output: &str) -> (r: String)
        ensures
            r@ == success_xml("websearch"@, "Web search: "@ + args.query@, output@),
    {
        let mut t: Vec<char> = Vec::new();
        extend_str(&mut t, "Web search: ");
        extend_str(&mut t, args.query.as_str());
        XmlBuilder::build_success("websearch", string_of(t.as_slice()).as_str(), output)
    }
}

/// The address of the search service's endpoint.
pub fn endpoint_url() -> (r: &'static str)
    ensures
        r@ == "https://mcp.exa.ai/mcp"@,
{
    "https://mcp.exa.ai/mcp"
}

/// The error when the response body could not be read.
pub fn read_failed(error: &str) -> (r: String)
    ensures
        r@ == "Failed to read response: "@ + error@,
{
    let mut m: Vec<char> = Vec::new();
    extend_str(&mut m, "Failed to read response: ");
    extend_str(&mut m, error);
    string_of(m.as_slice())
}

/// A `tools/call` request of the search service.
pub(crate) fn rpc_request(name: &str, arguments: JsonValue) -> (r: JsonValue)
    ensures
        r@ == rpc_call(name@, arguments@),
{
    let ghost av = arguments@;
    let mut p: Vec<(String, JsonValue)> = Vec::new();
    p.push(text("name", name));
    p.push(nested("arguments", arguments));
    let params = object(p);
    let ghost pv = params@;
    let mut m: Vec<(String, JsonValue)> = Vec::new();
    m.push(text("jsonrpc", "2.0"));
    m.push(uint("id", 1));
    m.push(text("method", "tools/call"));
    m.push(nested("params", params));
    let r = object(m);
    assert(r@ == rpc_call(name@, av)) by {
        if let JsonView::Object(x) = rpc_call(name@, av) {
            if let JsonView::Object(y) = x[3].1 {
                assert(crate::tools::domain::json_value::members_view(p@) =~= y);
            }
            assert(crate::tools::domain::json_value::members_view(m@) =~= x);
        }
    }
    r
}

} // verus!
