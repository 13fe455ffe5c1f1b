//! Todo tool: reads the todo list of a call and answers with how many
//! items are still open.  Storing the list is left to the caller.
use vstd::prelude::*;
use crate::text::{chars_of, decimal, decimal_chars, eq_str, extend_chars, extend_str, string_of};
use crate::tools::domain::json_value::{elems_view, jarray, jget, jstr, lemma_array_view, JsonValue, JsonView};
use crate::tools::domain::xml_builder::{success_xml, XmlBuilder};
use crate::ui::tui::autocomplete::{join_path, path_joined};

verus! {

/// Status of a todo item.
#[derive(Debug, Clone, Copy, PartialEq, Eq, Structural)]
pub enum TodoStatus {
    Pending,
    InProgress,
    Completed,
}

/// One todo item.
#[derive(Debug, Clone)]
pub struct TodoItem {
    pub content: String,
    pub status: TodoStatus,
    pub active_form: String,
}

/// Todo tool: keeps one todo list per call below its storage directory.
pub struct TodoWriteTool {
    storage_dir: String,
}

/// The plain values of a todo item.
pub open spec fn todo_view(t: TodoItem) -> (Seq<char>, TodoStatus, Seq<char>) {
    (t.content@, t.status, t.active_form@)
}

/// The status named by a string.
pub open spec fn status_named(s: Seq<char>) -> Option<TodoStatus> {
    if s == "pending"@ {
        Some(TodoStatus::Pending)
    } else if s == "in_progress"@ {
        Some(TodoStatus::InProgress)
    } else if s == "completed"@ {
        Some(TodoStatus::Completed)
    } else {
        None
    }
}

/// What one element of the `todos` array gives: content, status and active
/// form are required, and the status must be `pending`, `in_progress` or
/// `completed`.
pub open spec fn todo_item_parse(v: JsonView, idx: nat) -> Result<(Seq<char>, TodoStatus, Seq<char>), Seq<char>> {
    match jstr(jget(v, "content"@)) {
        None => Err("Todo item "@ + decimal(idx) + " missing 'content' field"@),
        Some(c) => match jstr(jget(v, "status"@)) {
            None => Err("Todo item "@ + decimal(idx) + " missing 'status' field"@),
            Some(s) => match status_named(s) {
                None => Err("Invalid status '"@ + s + "' for todo item "@ + decimal(idx)),
                Some(st) => match jstr(jget(v, "activeForm"@)) {
                    None => Err("Todo item "@ + decimal(idx) + " missing 'activeForm' field"@),
                    Some(a) => Ok((c, st, a)),
                },
            },
        },
    }
}

/// The items of the first `n` elements, or the first error among them.
pub open spec fn todos_upto(items: Seq<JsonView>, n: nat) -> Result<Seq<(Seq<char>, TodoStatus, Seq<char>)>, Seq<char>>
    decreases n,
{
    if n == 0 {
        Ok(Seq::empty())
    } else {
        match todos_upto(items, (n - 1) as nat) {
            Err(e) => Err(e),
            Ok(p) => match todo_item_parse(items[n - 1], (n - 1) as nat) {
                Err(e) => Err(e),
                Ok(t) => Ok(p.push(t)),
            },
        }
    }
}

/// What the tool makes of its arguments: the `todos` array is required.
pub open spec fn todos_parse(v: JsonView) -> Result<Seq<(Seq<char>, TodoStatus, Seq<char>)>, Seq<char>> {
    match jarray(jget(v, "todos"@)) {
        None => Err("Missing 'todos' argument"@),
        Some(items) => todos_upto(items, items.len()),
    }
}

/// Once an element fails, the error stays the first error.
proof fn lemma_todos_error_stays(items: Seq<JsonView>, i: nat, n: nat)
    requires
        i <= n,
        todos_upto(items, i) is Err,
    ensures
        todos_upto(items, n) == todos_upto(items, i),
    decreases n - i,
{
    if i < n {
        lemma_todos_error_stays(items, i, (n - 1) as nat);
    }
}

/// The first failing element gives the error of the whole list.
proof fn lemma_first_error(items: Seq<JsonView>, idx: nat, e: Seq<char>)
    requires
        idx < items.len(),
        todos_upto(items, idx) is Ok,
        todo_item_parse(items[idx as int], idx) == Err::<(Seq<char>, TodoStatus, Seq<char>), Seq<char>>(e),
    ensures
        todos_upto(items, items.len()) == Err::<Seq<(Seq<char>, TodoStatus, Seq<char>)>, Seq<char>>(e),
{
    assert(todos_upto(items, idx + 1) == Err::<Seq<(Seq<char>, TodoStatus, Seq<char>)>, Seq<char>>(e));
    lemma_todos_error_stays(items, idx + 1, items.len());
}

/// Number of items not completed.
pub open spec fn open_count(s: Seq<(Seq<char>, TodoStatus, Seq<char>)>) -> nat
    decreases s.len(),
{
    if s.len() == 0 {
        0
    } else {
        open_count(s.drop_last()) + if s.last().1 != TodoStatus::Completed { 1nat } else { 0nat }
    }
}

/// A decimal index as a string.
fn index_text(i: usize) -> (r: Vec<char>)
    ensures
        r@ == decimal(i as nat),
{
    decimal_chars(i as u64)
}

impl TodoWriteTool {
    /// A todo tool storing below `.coding-agent/todos`.
    pub fn new() -> (r: Self)
        ensures
            r.storage()@ == ".coding-agent/todos"@,
    {
        TodoWriteTool { storage_dir: ".coding-agent/todos".to_owned() }
    }

    /// The storage directory.
    pub closed spec fn storage(&self) -> String {
        self.storage_dir
    }

    /// The storage directory.
    pub fn storage_dir(&self) -> (r: &str)
        ensures
            r@ == self.storage()@,
    {
        self.storage_dir.as_str()
    }

    /// The file holding a session's todos: `session-<id>.json` in the
    /// storage directory.
    pub fn get_storage_path(&self, session_id: &str) -> (r: String)
        ensures
            r@ == path_joined(self.storage()@, "session-"@ + session_id@ + ".json"@),
    {
        let mut f: Vec<char> = Vec::new();
        extend_str(&mut f, "session-");
        extend_str(&mut f, session_id);
        extend_str(&mut f, ".json");
        let name = string_of(f.as_slice());
        join_path(self.storage_dir.as_str(), name.as_str())
    }

    /// Reads the todo list.
    pub fn parse_args(args: &JsonValue) -> (r: Result<Vec<TodoItem>, String>)
        ensures
            match (r, todos_parse(args@)) {
                (Ok(v), Ok(w)) => v@.map_values(|t: TodoItem| todo_view(t)) == w,
                (Err(m), Err(e)) => m@ == e,
                _ => false,
            },
    {
        let items = match args.get_array("todos") {
            Some(a) => a,
            None => return Err("Missing 'todos' argument".to_owned()),
        };
        proof {
            lemma_array_view(items@);
        }
        let ghost iv = elems_view(items@);
        let mut todos: Vec<TodoItem> = Vec::new();
        assert(todos@.map_values(|t: TodoItem| todo_view(t)) =~= Seq::<(Seq<char>, TodoStatus, Seq<char>)>::empty());
        let mut idx: usize = 0;
        while idx < items.len()
            invariant
                idx <= items@.len(),
                iv == elems_view(items@),
                jarray(jget(args@, "todos"@)) == Some(iv),
                iv.len() == items@.len(),
                forall|k: int| 0 <= k < items@.len() ==> #[trigger] iv[k] == items@[k]@,
                todos_upto(iv, idx as nat) == Ok::<Seq<(Seq<char>, TodoStatus, Seq<char>)>, Seq<char>>(
                    todos@.map_values(|t: TodoItem| todo_view(t)),
                ),
            decreases items.len() - idx,
        {
            let item = &items[idx];
            assert(iv[idx as int] == item@);
            let content = match item.get_str("content") {
                Some(c) => c,
                None => {
                    let mut m: Vec<char> = Vec::new();
                    extend_str(&mut m, "Todo item ");
                    extend_chars(&mut m, index_text(idx).as_slice());
                    extend_str(&mut m, " missing 'content' field");
                    let msg = string_of(m.as_slice());
                    proof {
                        lemma_first_error(iv, idx as nat, msg@);
                    }
                    return Err(msg);
                },
            };
            let status_str = match item.get_str("status") {
                Some(s) => s,
                None => {
                    let mut m: Vec<char> = Vec::new();
                    extend_str(&mut m, "Todo item ");
                    extend_chars(&mut m, index_text(idx).as_slice());
                    extend_str(&mut m, " missing 'status' field");
                    let msg = string_of(m.as_slice());
                    proof {
                        lemma_first_error(iv, idx as nat, msg@);
                    }
                    return Err(msg);
                },
            };
            let sc = chars_of(status_str);
            let status = if eq_str(sc.as_slice(), "pending") {
                TodoStatus::Pending
            } else if eq_str(sc.as_slice(), "in_progress") {
                TodoStatus::InProgress
            } else if eq_str(sc.as_slice(), "completed") {
                TodoStatus::Completed
            } else {
                let mut m: Vec<char> = Vec::new();
                extend_str(&mut m, "Invalid status '");
                extend_str(&mut m, status_str);
                extend_str(&mut m, "' for todo item ");
                extend_chars(&mut m, index_text(idx).as_slice());
                let msg = string_of(m.as_slice());
                proof {
                    lemma_first_error(iv, idx as nat, msg@);
                }
                return Err(msg);
            };
            let active_form = match item.get_str("activeForm") {
                Some(a) => a,
                None => {
                    let mut m: Vec<char> = Vec::new();
                    extend_str(&mut m, "Todo item ");
                    extend_chars(&mut m, index_text(idx).as_slice());
                    extend_str(&mut m, " missing 'activeForm' field");
                    let msg = string_of(m.as_slice());
                    proof {
                        lemma_first_error(iv, idx as nat, msg@);
                    }
                    return Err(msg);
                },
            };
            let ghost before = todos@;
            todos.push(TodoItem { content: content.to_owned(), status, active_form: active_form.to_owned() });
            assert(todos@.map_values(|t: TodoItem| todo_view(t)) =~= before.map_values(|t: TodoItem| todo_view(t)).push(
                (content@, status, active_form@),
            ));
            idx = idx + 1;
        }
        Ok(todos)
    }

    /// The answer after storing a todo list: the number of open items, and
    /// the list as JSON text (`todos_json`, written by the caller).
    pub fn response(todos: &Vec<TodoItem>, todos_json: &str) -> (r: String)
        ensures
            r@ == success_xml("todowrite"@, decimal(open_count(todos@.map_values(|t: TodoItem| todo_view(t))))
                + " todos"@, todos_json@),
    {
        let ghost tv = todos@.map_values(|t: TodoItem| todo_view(t));
        let mut open: usize = 0;
        let mut i: usize = 0;
        while i < todos.len()
            invariant
                i <= todos@.len(),
                tv == todos@.map_values(|t: TodoItem| todo_view(t)),
                open == open_count(tv.take(i as int)),
                open <= i,
            decreases todos.len() - i,
        {
            assert(tv.take(i + 1).drop_last() =~= tv.take(i as int));
            if todos[i].status != TodoStatus::Completed {
                open = open + 1;
            }
            i = i + 1;
        }
        assert(tv.take(todos@.len() as int) =~= tv);
        let mut c: Vec<char> = Vec::new();
        extend_chars(&mut c, index_text(open).as_slice());
        extend_str(&mut c, " todos");
        XmlBuilder::build_success("todowrite", string_of(c.as_slice()).as_str(), todos_json)
    }
}

} // verus!
