//! Code search tool: reads its arguments, builds the JSON-RPC request for
//! the search service and the answer.  The exchange with the service is
//! left to the caller; the events are read as for the web search.
use vstd::prelude::*;
use crate::text::{extend_str, string_of};
use crate::tools::application::websearch_tool::{rpc_call, rpc_request};
use crate::tools::domain::json_builder::{object, success_doc, text, uint, JsonBuilder};
use crate::tools::domain::json_value::{jget, jstr, ju64, members_view, str_member, uint_member, JsonValue, JsonView};

verus! {

/// Tokens asked for when none is given.
pub const DEFAULT_TOKENS_NUM: u32 = 5000;

/// Fewest tokens accepted.
pub const MIN_TOKENS_NUM: u32 = 1000;

/// Most tokens accepted.
pub const MAX_TOKENS_NUM: u32 = 50000;

/// Timeout of a code search request, in seconds.
pub const CODESEARCH_TIMEOUT_SECS: u64 = 30;

/// Code search tool.
pub struct CodeSearchTool;

/// Arguments of a code search.
#[derive(Debug)]
pub struct CodeSearchArgs {
    pub query: String,
    pub tokens_num: u32,
}

/// What the tool makes of its arguments: the query (required) and the
/// number of tokens (5000 by default; a larger number is kept by its low
/// 32 bits), which must lie between 1000 and 50000.
pub open spec fn codesearch_parse(v: JsonView) -> Result<(Seq<char>, u32), Seq<char>> {
    match jstr(jget(v, "query"@)) {
        None => Err("Missing 'query' argument"@),
        Some(q) => {
            let n = match ju64(jget(v, "tokensNum"@)) {
                Some(x) => x as u32,
                None => DEFAULT_TOKENS_NUM,
            };
            if n < MIN_TOKENS_NUM || n > MAX_TOKENS_NUM {
                Err("tokensNum must be between 1000 and 50000"@)
            } else {
                Ok((q, n))
            }
        },
    }
}

/// The JSON-RPC request of a code search.
pub open spec fn codesearch_request(query: Seq<char>, tokens_num: u32) -> JsonView {
    rpc_call(
        "get_code_context_exa"@,
        JsonView::Object(seq![str_member("query"@, query), uint_member("tokensNum"@, tokens_num as u64)]),
    )
}

/// The answer document: the query and the results text.
pub open spec fn codesearch_doc(query: Seq<char>, results: Seq<char>) -> JsonView {
    success_doc("codesearch"@, JsonView::Object(seq![str_member("query"@, query), str_member("results"@, results)]))
}

impl CodeSearchTool {
    /// A code search tool.
    pub fn new() -> (r: Self) {
        CodeSearchTool
    }

    /// Reads and checks the arguments.
    pub fn parse_args(args: &JsonValue) -> (r: Result<CodeSearchArgs, String>)
        ensures
            match (r, codesearch_parse(args@)) {
                (Ok(a), Ok(v)) => a.query@ == v.0 && a.tokens_num == v.1,
                (Err(m), Err(e)) => m@ == e,
                _ => false,
            },
    {
        let query = match args.get_str("query") {
            Some(q) => q,
            None => return Err("Missing 'query' argument".to_owned()),
        };
        let tokens_num: u32 = match args.get_u64("tokensNum") {
            Some(n) => #[verifier::truncate] (n as u32),
            None => DEFAULT_TOKENS_NUM,
        };
        if tokens_num < MIN_TOKENS_NUM || tokens_num > MAX_TOKENS_NUM {
            return Err("tokensNum must be between 1000 and 50000".to_owned());
        }
        Ok(CodeSearchArgs { query: query.to_owned(), tokens_num })
    }

    /// The JSON-RPC request for the search service.
    pub fn request_body(args: &CodeSearchArgs) -> (r: JsonValue)
        ensures
            r@ == codesearch_request(args.query@, args.tokens_num),
    {
        let mut a: Vec<(String, JsonValue)> = Vec::new();
        a.push(text("query", args.query.as_str()));
        a.push(uint("tokensNum", args.tokens_num as u64));
        let arguments = object(a);
        let r = rpc_request("get_code_context_exa", arguments);
        assert(r@ == codesearch_request(args.query@, args.tokens_num)) by {
            if let JsonView::Object(x) = codesearch_request(args.query@, args.tokens_num) {
                if let JsonView::Object(p) = x[3].1 {
                    if let JsonView::Object(q) = p[1].1 {
                        assert(members_view(a@) =~= q);
                    }
                }
            }
        }
        r
    }

    /// The answer when no event carried a result.
    pub fn no_results() -> (r: String)
        ensures
            r@ == "No code snippets or documentation found. Please try a different query or be more specific about the library or programming concept."@,
    {
        "No code snippets or documentation found. Please try a different query or be more specific about the library or programming concept.".to_owned()
    }

    /// The error when the request could not be sent.
    pub fn request_failed(error: &str) -> (r: String)
        ensures
            r@ == "Code search request failed: "@ + error@,
    {
        let mut m: Vec<char> = Vec::new();
        extend_str(&mut m, "Code search request failed: ");
        extend_str(&mut m, error);
        string_of(m.as_slice())
    }

    /// The error when the service answered with a failure status.
    pub fn status_failed(status: &str, body: &str) -> (r: String)
        ensures
            r@ == "Code search error ("@ + status@ + "): "@ + body@,
    {
        let mut m: Vec<char> = Vec::new();
        extend_str(&mut m, "Code search error (");
        extend_str(&mut m, status);
        extend_str(&mut m, "): ");
        extend_str(&mut m, body);
        string_of(m.as_slice())
    }

    /// The answer: the query and the search output.
    pub fn response(args: &CodeSearchArgs, output: &str) -> (r: JsonValue)
        ensures
            r@ == codesearch_doc(args.query@, output@),
    {
        let mut d: Vec<(String, JsonValue)> = Vec::new();
        d.push(text("query", args.query.as_str()));
        d.push(text("results", output));
        let data = object(d);
        let ghost dv = data@;
        assert(dv == JsonView::Object(seq![str_member("query"@, args.query@), str_member("results"@, output@)])) by {
            assert(members_view(d@) =~= seq![str_member("query"@, args.query@), str_member("results"@, output@)]);
        }
        JsonBuilder::build_success("codesearch", data)
    }
}

} // verus!
