//! Batch tool: runs several tool calls at once (at most 25) and reports how
//! each went.  Running the calls is left to the caller.
use vstd::prelude::*;
use crate::text::{chars_of, decimal, decimal_chars, eq_str, extend_chars, extend_str, string_of};
use crate::tools::domain::json_value::{
    elems_view, jarray, jget, jstr, lemma_array_view, lemma_object_view, members_view, JsonNumber, JsonValue, JsonView,
};
use crate::tools::domain::xml_builder::{success_xml, XmlBuilder};

verus! {

/// Most calls run in one batch.
pub const MAX_BATCH_SIZE: usize = 25;

/// Batch tool.
pub struct BatchTool;

/// One call of a batch.
#[derive(Debug)]
pub struct ToolCall {
    pub tool: String,
    pub parameters: JsonValue,
}

/// How one call of a batch went.
#[derive(Debug)]
pub struct BatchResult {
    pub tool: String,
    pub success: bool,
    pub error: Option<String>,
    pub duration_ms: u64,
}

/// What one element of `tool_calls` gives: its tool name (required) and its
/// parameters (an empty object when not given).
pub open spec fn call_parse(v: JsonView, idx: nat) -> Result<(Seq<char>, JsonView), Seq<char>> {
    match jstr(jget(v, "tool"@)) {
        None => Err("Tool call "@ + decimal(idx) + " missing 'tool' field"@),
        Some(t) => Ok((t, match jget(v, "parameters"@) {
            Some(p) => p,
            None => JsonView::Object(Seq::empty()),
        })),
    }
}

/// The calls of the first `n` elements, or the first error among them.
pub open spec fn calls_upto(items: Seq<JsonView>, n: nat) -> Result<Seq<(Seq<char>, JsonView)>, Seq<char>>
    decreases n,
{
    if n == 0 {
        Ok(Seq::empty())
    } else {
        match calls_upto(items, (n - 1) as nat) {
            Err(e) => Err(e),
            Ok(p) => match call_parse(items[n - 1], (n - 1) as nat) {
                Err(e) => Err(e),
                Ok(c) => Ok(p.push(c)),
            },
        }
    }
}

/// What the tool makes of its arguments: a non-empty `tool_calls` array.
pub open spec fn batch_parse(v: JsonView) -> Result<Seq<(Seq<char>, JsonView)>, Seq<char>> {
    match jarray(jget(v, "tool_calls"@)) {
        None => Err("Missing 'tool_calls' argument"@),
        Some(items) => if items.len() == 0 {
            Err("tool_calls must contain at least one tool call"@)
        } else {
            calls_upto(items, items.len())
        },
    }
}

proof fn lemma_calls_error(items: Seq<JsonView>, idx: nat, e: Seq<char>)
    requires
        idx < items.len(),
        calls_upto(items, idx) is Ok,
        call_parse(items[idx as int], idx) == Err::<(Seq<char>, JsonView), Seq<char>>(e),
    ensures
        calls_upto(items, items.len()) == Err::<Seq<(Seq<char>, JsonView)>, Seq<char>>(e),
    decreases items.len() - idx,
{
    lemma_calls_error_stays(items, idx + 1, items.len(), e);
}

proof fn lemma_calls_error_stays(items: Seq<JsonView>, i: nat, n: nat, e: Seq<char>)
    requires
        i <= n,
        i >= 1,
        i <= items.len(),
        calls_upto(items, i) == Err::<Seq<(Seq<char>, JsonView)>, Seq<char>>(e),
    ensures
        calls_upto(items, n) == Err::<Seq<(Seq<char>, JsonView)>, Seq<char>>(e),
    decreases n - i,
{
    if i < n {
        lemma_calls_error_stays(items, i, (n - 1) as nat, e);
    }
}

/// The plain values of a call.
pub open spec fn call_view(c: ToolCall) -> (Seq<char>, JsonView) {
    (c.tool@, c.parameters@)
}

/// The plain values of a result.
pub open spec fn result_view(r: BatchResult) -> (Seq<char>, bool, Option<Seq<char>>, u64) {
    (r.tool@, r.success, match r.error {
        Some(e) => Some(e@),
        None => None,
    }, r.duration_ms)
}

/// Number of successful results.
pub open spec fn successes(rs: Seq<(Seq<char>, bool, Option<Seq<char>>, u64)>) -> nat
    decreases rs.len(),
{
    if rs.len() == 0 {
        0
    } else {
        successes(rs.drop_last()) + if rs.last().1 { 1nat } else { 0nat }
    }
}

/// The message summing up a batch.
pub open spec fn outcome_message(ok: nat, total: nat) -> Seq<char> {
    if total > ok {
        "Executed "@ + decimal(ok) + "/"@ + decimal(total) + " tools successfully. "@ + decimal((total - ok) as nat)
            + " failed."@
    } else {
        "All "@ + decimal(ok) + " tools executed successfully."@
    }
}

impl BatchTool {
    /// A batch tool.
    pub fn new() -> (r: Self) {
        BatchTool
    }

    /// Reads the calls of a batch.
    pub fn parse_args(args: &JsonValue) -> (r: Result<Vec<ToolCall>, String>)
        ensures
            match (r, batch_parse(args@)) {
                (Ok(v), Ok(w)) => v@.map_values(|c: ToolCall| call_view(c)) == w,
                (Err(m), Err(e)) => m@ == e,
                _ => false,
            },
    {
        let items = match args.get_array("tool_calls") {
            Some(a) => a,
            None => return Err("Missing 'tool_calls' argument".to_owned()),
        };
        proof {
            lemma_array_view(items@);
        }
        if items.len() == 0 {
            return Err("tool_calls must contain at least one tool call".to_owned());
        }
        let ghost iv = elems_view(items@);
        let mut calls: Vec<ToolCall> = Vec::new();
        assert(calls@.map_values(|c: ToolCall| call_view(c)) =~= Seq::<(Seq<char>, JsonView)>::empty());
        let mut idx: usize = 0;
        while idx < items.len()
            invariant
                idx <= items@.len(),
                iv == elems_view(items@),
                jarray(jget(args@, "tool_calls"@)) == Some(iv),
                iv.len() == items@.len(),
                iv.len() > 0,
                forall|k: int| 0 <= k < items@.len() ==> #[trigger] iv[k] == items@[k]@,
                calls_upto(iv, idx as nat) == Ok::<Seq<(Seq<char>, JsonView)>, Seq<char>>(
                    calls@.map_values(|c: ToolCall| call_view(c)),
                ),
            decreases items.len() - idx,
        {
            let call = &items[idx];
            assert(iv[idx as int] == call@);
            let tool = match call.get_str("tool") {
                Some(t) => t,
                None => {
                    let mut m: Vec<char> = Vec::new();
                    extend_str(&mut m, "Tool call ");
                    extend_chars(&mut m, decimal_chars(idx as u64).as_slice());
                    extend_str(&mut m, " missing 'tool' field");
                    let msg = string_of(m.as_slice());
                    proof {
                        lemma_calls_error(iv, idx as nat, msg@);
                    }
                    return Err(msg);
                },
            };
            let parameters = match call.get("parameters") {
                Some(p) => p.duplicate(),
                None => {
                    let empty: Vec<(String, JsonValue)> = Vec::new();
                    proof {
                        lemma_object_view(empty@);
                        assert(members_view(empty@) =~= Seq::<(Seq<char>, JsonView)>::empty());
                    }
                    JsonValue::Object(empty)
                },
            };
            let ghost before = calls@;
            calls.push(ToolCall { tool: tool.to_owned(), parameters });
            assert(calls@.map_values(|c: ToolCall| call_view(c)) =~= before.map_values(|c: ToolCall| call_view(c)).push(
                call_view(calls@.last()),
            ));
            idx = idx + 1;
        }
        Ok(calls)
    }

    /// Splits a batch into the calls run (the first 25) and the calls
    /// refused.
    pub fn split_batch(calls: Vec<ToolCall>) -> (r: (Vec<ToolCall>, Vec<ToolCall>))
        ensures
            r.0@ + r.1@ == calls@,
            r.0@.len() == (if calls@.len() <= MAX_BATCH_SIZE { calls@.len() } else { MAX_BATCH_SIZE as nat }),
    {
        let mut run = calls;
        if run.len() > MAX_BATCH_SIZE {
            let rest = run.split_off(MAX_BATCH_SIZE);
            (run, rest)
        } else {
            (run, Vec::new())
        }
    }

    /// Whether a tool may run in a batch (a batch may not hold another batch).
    pub fn is_allowed(tool: &str) -> (r: bool)
        ensures
            r == (tool@ != "batch"@),
    {
        let t = chars_of(tool);
        !eq_str(t.as_slice(), "batch")
    }

    /// A failed result.
    pub fn failure(tool: &str, error: String, duration_ms: u64) -> (r: BatchResult)
        ensures
            result_view(r) == (tool@, false, Some(error@), duration_ms),
    {
        BatchResult { tool: tool.to_owned(), success: false, error: Some(error), duration_ms }
    }

    /// The result of a call that was not allowed.
    pub fn disallowed(tool: &str, duration_ms: u64) -> (r: BatchResult)
        ensures
            result_view(r) == (tool@, false, Some("Tool '"@ + tool@ + "' is not allowed in batch. Disallowed tools: batch"@), duration_ms),
    {
        let mut m: Vec<char> = Vec::new();
        extend_str(&mut m, "Tool '");
        extend_str(&mut m, tool);
        extend_str(&mut m, "' is not allowed in batch. Disallowed tools: batch");
        Self::failure(tool, string_of(m.as_slice()), duration_ms)
    }

    /// The result of a call of an unknown tool.
    pub fn not_found(tool: &str, duration_ms: u64) -> (r: BatchResult)
        ensures
            result_view(r) == (tool@, false, Some("Tool '"@ + tool@ + "' not found in registry"@), duration_ms),
    {
        let mut m: Vec<char> = Vec::new();
        extend_str(&mut m, "Tool '");
        extend_str(&mut m, tool);
        extend_str(&mut m, "' not found in registry");
        Self::failure(tool, string_of(m.as_slice()), duration_ms)
    }

    /// The result of a call made before the tools were registered.
    pub fn registry_missing(tool: &str, duration_ms: u64) -> (r: BatchResult)
        ensures
            result_view(r) == (tool@, false, Some("Tool registry not initialized"@), duration_ms),
    {
        Self::failure(tool, "Tool registry not initialized".to_owned(), duration_ms)
    }

    /// The result of a call beyond the first 25.
    pub fn discarded(tool: &str) -> (r: BatchResult)
        ensures
            result_view(r) == (tool@, false, Some("Maximum of 25 tools allowed in batch"@), 0u64),
    {
        Self::failure(tool, "Maximum of 25 tools allowed in batch".to_owned(), 0)
    }

    /// The result of a call that ran: success, or the error it gave.
    pub fn completed(tool: &str, outcome: Result<(), String>, duration_ms: u64) -> (r: BatchResult)
        ensures
            result_view(r) == (tool@, outcome is Ok, match outcome {
                Ok(()) => None,
                Err(e) => Some(e@),
            }, duration_ms),
    {
        match outcome {
            Ok(()) => BatchResult { tool: tool.to_owned(), success: true, error: None, duration_ms },
            Err(e) => Self::failure(tool, e, duration_ms),
        }
    }

    /// The message summing up the results.
    pub fn outcome_message(results: &Vec<BatchResult>) -> (r: String)
        ensures
            ({
                let rs = results@.map_values(|x: BatchResult| result_view(x));
                r@ == outcome_message(successes(rs), rs.len())
            }),
    {
        let ok = Self::count_successes(results);
        let total = results.len();
        let mut m: Vec<char> = Vec::new();
        if total > ok {
            extend_str(&mut m, "Executed ");
            extend_chars(&mut m, decimal_chars(ok as u64).as_slice());
            extend_str(&mut m, "/");
            extend_chars(&mut m, decimal_chars(total as u64).as_slice());
            extend_str(&mut m, " tools successfully. ");
            extend_chars(&mut m, decimal_chars((total - ok) as u64).as_slice());
            extend_str(&mut m, " failed.");
        } else {
            extend_str(&mut m, "All ");
            extend_chars(&mut m, decimal_chars(ok as u64).as_slice());
            extend_str(&mut m, " tools executed successfully.");
        }
        string_of(m.as_slice())
    }

    /// Number of successful results.
    pub fn count_successes(results: &Vec<BatchResult>) -> (r: usize)
        ensures
            r == successes(results@.map_values(|x: BatchResult| result_view(x))),
            r <= results@.len(),
    {
        let ghost rs = results@.map_values(|x: BatchResult| result_view(x));
        let mut ok: usize = 0;
        let mut i: usize = 0;
        while i < results.len()
            invariant
                i <= results@.len(),
                rs == results@.map_values(|x: BatchResult| result_view(x)),
                ok == successes(rs.take(i as int)),
                ok <= i,
            decreases results.len() - i,
        {
            assert(rs.take(i + 1).drop_last() =~= rs.take(i as int));
            if results[i].success {
                ok = ok + 1;
            }
            i = i + 1;
        }
        assert(rs.take(results@.len() as int) =~= rs);
        ok
    }

    /// The answer of a batch: the number of successes in the title, then
    /// the summary message and the details (as JSON text written by the
    /// caller).
    pub fn response(results: &Vec<BatchResult>, details_json: &str) -> (r: String)
        ensures
            ({
                let rs = results@.map_values(|x: BatchResult| result_view(x));
                r@ == success_xml(
                    "batch"@,
                    "Batch execution ("@ + decimal(successes(rs)) + "/"@ + decimal(rs.len()) + " successful)"@,
                    outcome_message(successes(rs), rs.len()) + "\n\nDetails:\n"@ + details_json@,
                )
            }),
    {
        let ok = Self::count_successes(results);
        let mut title: Vec<char> = Vec::new();
        extend_str(&mut title, "Batch execution (");
        extend_chars(&mut title, decimal_chars(ok as u64).as_slice());
        extend_str(&mut title, "/");
        extend_chars(&mut title, decimal_chars(results.len() as u64).as_slice());
        extend_str(&mut title, " successful)");
        let msg = Self::outcome_message(results);
        let mut body: Vec<char> = chars_of(msg.as_str());
        extend_str(&mut body, "\n\nDetails:\n");
        extend_str(&mut body, details_json);
        XmlBuilder::build_success("batch", string_of(title.as_slice()).as_str(), string_of(body.as_slice()).as_str())
    }
}

} // verus!
