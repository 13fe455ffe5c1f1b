//! What each tool tells the model about itself: its id, description,
//! category and the JSON schema of its parameters.  Object members are kept
//! in key order, as a JSON map holds them.
use vstd::prelude::*;
use crate::tools::application::apply_patch_tool::ApplyPatchTool;
use crate::tools::application::bash_tool::BashTool;
use crate::tools::application::batch_tool::BatchTool;
use crate::tools::application::codesearch_tool::CodeSearchTool;
use crate::tools::application::edit_tool::EditTool;
use crate::tools::application::glob_tool::GlobTool;
use crate::tools::application::grep_tool::GrepTool;
use crate::tools::application::head_tail_tool::HeadTailTool;
use crate::tools::application::list_tool::ListTool;
use crate::tools::application::read_tool::ReadTool;
use crate::tools::application::stat_tool::StatTool;
use crate::tools::application::todo_tool::TodoWriteTool;
use crate::tools::application::webfetch_tool::WebFetchTool;
use crate::tools::application::websearch_tool::WebSearchTool;
use crate::tools::application::write_tool::WriteTool;
use crate::tools::domain::json_builder::object;
use crate::tools::domain::json_value::{
    elems_view, lemma_array_view, lemma_object_view, members_view, JsonNumber, JsonValue, JsonView, NumberView,
};

verus! {

/// A tool's description for the model.
#[derive(Debug)]
pub struct ToolDescriptor {
    pub id: String,
    pub name: String,
    pub description: String,
    pub category: Option<String>,
    /// JSON schema of the parameters.
    pub parameters: JsonValue,
}

/// The plain content of a descriptor.
pub struct DescriptorView {
    pub id: Seq<char>,
    pub name: Seq<char>,
    pub description: Seq<char>,
    pub category: Option<Seq<char>>,
    pub parameters: JsonView,
}

pub open spec fn descriptor_view(d: ToolDescriptor) -> DescriptorView {
    DescriptorView {
        id: d.id@,
        name: d.name@,
        description: d.description@,
        category: match d.category {
            Some(c) => Some(c@),
            None => None,
        },
        parameters: d.parameters@,
    }
}

/// A descriptor whose name is its id.
pub open spec fn described(id: Seq<char>, description: Seq<char>, category: Seq<char>, parameters: JsonView) -> DescriptorView {
    DescriptorView { id, name: id, description, category: Some(category), parameters }
}

/// A JSON string.
pub open spec fn jtext(s: Seq<char>) -> JsonView {
    JsonView::Str(s)
}

/// A JSON non-negative integer.
pub open spec fn juint(n: u64) -> JsonView {
    JsonView::Number(NumberView::PosInt(n))
}

/// A JSON array of strings.
pub open spec fn jstrings(items: Seq<Seq<char>>) -> JsonView {
    JsonView::Array(items.map_values(|s: Seq<char>| JsonView::Str(s)))
}

/// A property of the given type with a description.
pub open spec fn prop(ty: Seq<char>, description: Seq<char>) -> JsonView {
    JsonView::Object(seq![("description"@, jtext(description)), ("type"@, jtext(ty))])
}

/// A property of the given type with a description and a default.
pub open spec fn prop_default(ty: Seq<char>, description: Seq<char>, default: JsonView) -> JsonView {
    JsonView::Object(seq![("default"@, default), ("description"@, jtext(description)), ("type"@, jtext(ty))])
}

/// A string property taking one of the listed values, with a description
/// and perhaps a default.
pub open spec fn enum_prop(description: Seq<char>, values: Seq<Seq<char>>, default: Option<Seq<char>>) -> JsonView {
    let rest = seq![("description"@, jtext(description)), ("enum"@, jstrings(values)), ("type"@, jtext("string"@))];
    JsonView::Object(
        match default {
            Some(d) => seq![("default"@, jtext(d))] + rest,
            None => rest,
        },
    )
}

fn text_value(s: &str) -> (r: JsonValue)
    ensures
        r@ == jtext(s@),
{
    JsonValue::Str(s.to_owned())
}

fn uint_value(n: u64) -> (r: JsonValue)
    ensures
        r@ == juint(n),
{
    JsonValue::Number(JsonNumber::PosInt(n))
}

fn strings_value(items: &[&str]) -> (r: JsonValue)
    ensures
        r@ == jstrings(items@.map_values(|s: &str| s@)),
{
    let mut v: Vec<JsonValue> = Vec::new();
    let mut i: usize = 0;
    while i < items.len()
        invariant
            i <= items@.len(),
            v@.len() == i,
            forall|k: int| 0 <= k < i ==> #[trigger] v@[k]@ == JsonView::Str(items@[k]@),
        decreases items.len() - i,
    {
        v.push(JsonValue::Str(items[i].to_owned()));
        i = i + 1;
    }
    proof {
        lemma_array_view(v@);
        let want = items@.map_values(|s: &str| s@).map_values(|s: Seq<char>| JsonView::Str(s));
        assert forall|k: int| 0 <= k < v@.len() implies #[trigger] elems_view(v@)[k] == want[k] by {
            assert(v@[k]@ == JsonView::Str(items@[k]@));
        }
        assert(elems_view(v@) =~= want);
    }
    JsonValue::Array(v)
}

fn member(key: &str, value: JsonValue) -> (r: (String, JsonValue))
    ensures
        r.0@ == key@,
        r.1@ == value@,
{
    (key.to_owned(), value)
}

fn prop_value(ty: &str, description: &str) -> (r: JsonValue)
    ensures
        r@ == prop(ty@, description@),
{
    let v = vec![member("description", text_value(description)), member("type", text_value(ty))];
    proof {
        lemma_object_view(v@);
        assert(members_view(v@) =~= seq![("description"@, jtext(description@)), ("type"@, jtext(ty@))]);
    }
    object(v)
}

fn prop_default_value(ty: &str, description: &str, default: JsonValue) -> (r: JsonValue)
    ensures
        r@ == prop_default(ty@, description@, default@),
{
    let ghost d = default@;
    let v = vec![member("default", default), member("description", text_value(description)), member("type", text_value(ty))];
    proof {
        lemma_object_view(v@);
        assert(members_view(v@) =~= seq![("default"@, d), ("description"@, jtext(description@)), ("type"@, jtext(ty@))]);
    }
    object(v)
}

fn enum_value(description: &str, values: &[&str], default: Option<&str>) -> (r: JsonValue)
    ensures
        r@ == enum_prop(description@, values@.map_values(|s: &str| s@), match default {
            Some(d) => Some(d@),
            None => None,
        }),
{
    let mut members: Vec<(String, JsonValue)> = Vec::new();
    match default {
        Some(d) => members.push(member("default", text_value(d))),
        None => {},
    }
    members.push(member("description", text_value(description)));
    members.push(member("enum", strings_value(values)));
    members.push(member("type", text_value("string")));
    proof {
        lemma_object_view(members@);
        let rest = seq![
            ("description"@, jtext(description@)),
            ("enum"@, jstrings(values@.map_values(|s: &str| s@))),
            ("type"@, jtext("string"@)),
        ];
        match default {
            Some(d) => assert(members_view(members@) =~= seq![("default"@, jtext(d@))] + rest),
            None => assert(members_view(members@) =~= rest),
        }
    }
    object(members)
}

fn descriptor(id: &str, description: &str, category: &str, parameters: JsonValue) -> (r: ToolDescriptor)
    ensures
        descriptor_view(r) == described(id@, description@, category@, parameters@),
{
    ToolDescriptor {
        id: id.to_owned(),
        name: id.to_owned(),
        description: description.to_owned(),
        category: Some(category.to_owned()),
        parameters,
    }
}

// ---------------------------------------------------------------------------
// The tools' descriptors
// ---------------------------------------------------------------------------

/// The read tool's descriptor.
pub open spec fn read_descriptor() -> DescriptorView {
    described(
        "read"@,
        "Read file contents with optional offset and limit for partial reading"@,
        "filesystem"@,
        JsonView::Object(seq![
            ("limit"@, prop("number"@, "Maximum number of lines to read (default: read all)"@)),
            ("offset"@, prop_default("number"@, "Skip this many lines from the start (default: 0)"@, juint(0))),
            ("path"@, prop("string"@, "Path to the file to read"@)),
        ]),
    )
}

impl ReadTool {
    /// The read tool's descriptor (see `read_descriptor`).
    pub fn descriptor() -> (r: ToolDescriptor)
        ensures
            descriptor_view(r) == read_descriptor(),
    {
        let v = vec![
            member("limit", prop_value("number", "Maximum number of lines to read (default: read all)")),
            member("offset", prop_default_value("number", "Skip this many lines from the start (default: 0)", uint_value(0))),
            member("path", prop_value("string", "Path to the file to read")),
        ];
        proof {
            lemma_object_view(v@);
            assert(members_view(v@) =~= read_descriptor().parameters->Object_0);
        }
        descriptor("read", "Read file contents with optional offset and limit for partial reading", "filesystem", object(v))
    }
}

/// The bash tool's `args` property: an array of strings.
pub open spec fn args_schema() -> JsonView {
    JsonView::Object(seq![
        ("description"@, jtext("Command arguments"@)),
        ("items"@, JsonView::Object(seq![("type"@, jtext("string"@))])),
        ("type"@, jtext("array"@)),
    ])
}

fn args_value() -> (r: JsonValue)
    ensures
        r@ == args_schema(),
{
    let items = vec![member("type", text_value("string"))];
    proof {
        lemma_object_view(items@);
        assert(members_view(items@) =~= seq![("type"@, jtext("string"@))]);
    }
    let v = vec![member("description", text_value("Command arguments")), member("items", object(items)), member("type", text_value("array"))];
    proof {
        lemma_object_view(v@);
        assert(members_view(v@) =~= args_schema()->Object_0);
    }
    object(v)
}

/// The todo tool's `todos` property: an array of items with a content, a
/// status and an active form.
pub open spec fn todos_schema() -> JsonView {
    JsonView::Object(seq![
        ("description"@, jtext("The updated todo list"@)),
        ("items"@, JsonView::Object(seq![
            ("properties"@, JsonView::Object(seq![
                ("activeForm"@, prop("string"@, "The task in present continuous form (e.g., 'Running tests')"@)),
                ("content"@, prop("string"@, "The task description in imperative form (e.g., 'Run tests')"@)),
                ("status"@, enum_prop("The current status of the todo item"@, seq!["pending"@, "in_progress"@, "completed"@], None)),
            ])),
            ("required"@, jstrings(seq!["content"@, "status"@, "activeForm"@])),
            ("type"@, jtext("object"@)),
        ])),
        ("type"@, jtext("array"@)),
    ])
}

fn todos_value() -> (r: JsonValue)
    ensures
        r@ == todos_schema(),
{
    let statuses: [&str; 3] = ["pending", "in_progress", "completed"];
    let required: [&str; 3] = ["content", "status", "activeForm"];
    proof {
        assert(statuses@.map_values(|s: &str| s@) =~= seq!["pending"@, "in_progress"@, "completed"@]);
        assert(required@.map_values(|s: &str| s@) =~= seq!["content"@, "status"@, "activeForm"@]);
    }
    let props = vec![
        member("activeForm", prop_value("string", "The task in present continuous form (e.g., 'Running tests')")),
        member("content", prop_value("string", "The task description in imperative form (e.g., 'Run tests')")),
        member("status", enum_value("The current status of the todo item", &statuses, None)),
    ];
    proof {
        lemma_object_view(props@);
        assert(members_view(props@) =~= todos_schema()->Object_0[1].1->Object_0[0].1->Object_0);
    }
    let items = vec![
        member("properties", object(props)),
        member("required", strings_value(&required)),
        member("type", text_value("object")),
    ];
    proof {
        lemma_object_view(items@);
        assert(members_view(items@) =~= todos_schema()->Object_0[1].1->Object_0);
    }
    let v = vec![member("description", text_value("The updated todo list")), member("items", object(items)), member("type", text_value("array"))];
    proof {
        lemma_object_view(v@);
        assert(members_view(v@) =~= todos_schema()->Object_0);
    }
    object(v)
}

/// The batch tool's `tool_calls` property: at least one call, each naming
/// its tool and perhaps giving its parameters.
pub open spec fn tool_calls_schema() -> JsonView {
    JsonView::Object(seq![
        ("description"@, jtext("Array of tool calls to execute in parallel"@)),
        ("items"@, JsonView::Object(seq![
            ("properties"@, JsonView::Object(seq![
                ("parameters"@, prop("object"@, "Parameters for the tool"@)),
                ("tool"@, prop("string"@, "The name of the tool to execute"@)),
            ])),
            ("required"@, jstrings(seq!["tool"@])),
            ("type"@, jtext("object"@)),
        ])),
        ("minItems"@, juint(1)),
        ("type"@, jtext("array"@)),
    ])
}

fn tool_calls_value() -> (r: JsonValue)
    ensures
        r@ == tool_calls_schema(),
{
    let required: [&str; 1] = ["tool"];
    proof {
        assert(required@.map_values(|s: &str| s@) =~= seq!["tool"@]);
    }
    let props = vec![
        member("parameters", prop_value("object", "Parameters for the tool")),
        member("tool", prop_value("string", "The name of the tool to execute")),
    ];
    proof {
        lemma_object_view(props@);
        assert(members_view(props@) =~= tool_calls_schema()->Object_0[1].1->Object_0[0].1->Object_0);
    }
    let items = vec![member("properties", object(props)), member("required", strings_value(&required)), member("type", text_value("object"))];
    proof {
        lemma_object_view(items@);
        assert(members_view(items@) =~= tool_calls_schema()->Object_0[1].1->Object_0);
    }
    let v = vec![
        member("description", text_value("Array of tool calls to execute in parallel")),
        member("items", object(items)),
        member("minItems", uint_value(1)),
        member("type", text_value("array")),
    ];
    proof {
        lemma_object_view(v@);
        assert(members_view(v@) =~= tool_calls_schema()->Object_0);
    }
    object(v)
}

/// The code search tool's `tokensNum` property: a number from 1000 to
/// 50000, 5000 by default.
pub open spec fn tokens_schema() -> JsonView {
    JsonView::Object(seq![
        ("default"@, juint(5000)),
        ("description"@, jtext("Number of tokens to return (1000-50000). Default is 5000."@)),
        ("maximum"@, juint(50000)),
        ("minimum"@, juint(1000)),
        ("type"@, jtext("number"@)),
    ])
}

fn tokens_value() -> (r: JsonValue)
    ensures
        r@ == tokens_schema(),
{
    let v = vec![
        member("default", uint_value(5000)),
        member("description", text_value("Number of tokens to return (1000-50000). Default is 5000.")),
        member("maximum", uint_value(50000)),
        member("minimum", uint_value(1000)),
        member("type", text_value("number")),
    ];
    proof {
        lemma_object_view(v@);
        assert(members_view(v@) =~= tokens_schema()->Object_0);
    }
    object(v)
}

/// The write tool's descriptor.
pub open spec fn write_descriptor() -> DescriptorView {
    described(
        "write"@,
        "Write content to a file, creating it if it doesn't exist"@,
        "filesystem"@,
        JsonView::Object(seq![
            ("content"@, prop("string"@, "Content to write to the file"@)),
            ("create_dirs"@, prop_default("boolean"@, "Create parent directories if they don't exist (default: true)"@, JsonView::Bool(true))),
            ("path"@, prop("string"@, "Path to the file to write"@)),
        ]),
    )
}

impl WriteTool {
    /// The descriptor (see `write_descriptor`).
    pub fn descriptor() -> (r: ToolDescriptor)
        ensures
            descriptor_view(r) == write_descriptor(),
    {
        let v = vec![
            member("content", prop_value("string", "Content to write to the file")),
            member("create_dirs", prop_default_value("boolean", "Create parent directories if they don't exist (default: true)", JsonValue::Bool(true))),
            member("path", prop_value("string", "Path to the file to write")),
        ];
        proof {
            lemma_object_view(v@);
            assert(members_view(v@) =~= write_descriptor().parameters->Object_0);
        }
        descriptor("write", "Write content to a file, creating it if it doesn't exist", "filesystem", object(v))
    }
}

/// The list tool's descriptor.
pub open spec fn list_descriptor() -> DescriptorView {
    described(
        "list"@,
        "List directory contents with detailed file metadata"@,
        "filesystem"@,
        JsonView::Object(seq![
            ("path"@, prop_default("string"@, "Directory path to list (default: current directory)"@, jtext("."@))),
            ("show_hidden"@, prop_default("boolean"@, "Show hidden files and directories (default: false)"@, JsonView::Bool(false))),
        ]),
    )
}

impl ListTool {
    /// The descriptor (see `list_descriptor`).
    pub fn descriptor() -> (r: ToolDescriptor)
        ensures
            descriptor_view(r) == list_descriptor(),
    {
        let v = vec![
            member("path", prop_default_value("string", "Directory path to list (default: current directory)", text_value("."))),
            member("show_hidden", prop_default_value("boolean", "Show hidden files and directories (default: false)", JsonValue::Bool(false))),
        ];
        proof {
            lemma_object_view(v@);
            assert(members_view(v@) =~= list_descriptor().parameters->Object_0);
        }
        descriptor("list", "List directory contents with detailed file metadata", "filesystem", object(v))
    }
}

/// The stat tool's descriptor.
pub open spec fn stat_descriptor() -> DescriptorView {
    described(
        "stat"@,
        "Get detailed metadata for a file or directory"@,
        "filesystem"@,
        JsonView::Object(seq![
            ("path"@, prop("string"@, "Path to the file or directory"@)),
        ]),
    )
}

impl StatTool {
    /// The descriptor (see `stat_descriptor`).
    pub fn descriptor() -> (r: ToolDescriptor)
        ensures
            descriptor_view(r) == stat_descriptor(),
    {
        let v = vec![
            member("path", prop_value("string", "Path to the file or directory")),
        ];
        proof {
            lemma_object_view(v@);
            assert(members_view(v@) =~= stat_descriptor().parameters->Object_0);
        }
        descriptor("stat", "Get detailed metadata for a file or directory", "filesystem", object(v))
    }
}

/// The glob tool's descriptor.
pub open spec fn glob_descriptor() -> DescriptorView {
    described(
        "glob"@,
        "Find files matching a glob pattern (e.g., *.txt, src/**/*.rs)"@,
        "filesystem"@,
        JsonView::Object(seq![
            ("path"@, prop_default("string"@, "Base directory to search in (default: current directory)"@, jtext("."@))),
            ("pattern"@, prop("string"@, "Glob pattern to match files (e.g., *.txt, src/**/*.rs)"@)),
        ]),
    )
}

impl GlobTool {
    /// The descriptor (see `glob_descriptor`).
    pub fn descriptor() -> (r: ToolDescriptor)
        ensures
            descriptor_view(r) == glob_descriptor(),
    {
        let v = vec![
            member("path", prop_default_value("string", "Base directory to search in (default: current directory)", text_value("."))),
            member("pattern", prop_value("string", "Glob pattern to match files (e.g., *.txt, src/**/*.rs)")),
        ];
        proof {
            lemma_object_view(v@);
            assert(members_view(v@) =~= glob_descriptor().parameters->Object_0);
        }
        descriptor("glob", "Find files matching a glob pattern (e.g., *.txt, src/**/*.rs)", "filesystem", object(v))
    }
}

/// The grep tool's descriptor.
pub open spec fn grep_descriptor() -> DescriptorView {
    described(
        "grep"@,
        "Search for text patterns in files using regular expressions"@,
        "search"@,
        JsonView::Object(seq![
            ("case_insensitive"@, prop_default("boolean"@, "Case-insensitive search (default: false)"@, JsonView::Bool(false))),
            ("path"@, prop_default("string"@, "File or directory to search in (default: current directory)"@, jtext("."@))),
            ("pattern"@, prop("string"@, "Regular expression pattern to search for"@)),
            ("recursive"@, prop_default("boolean"@, "Search recursively in subdirectories (default: false)"@, JsonView::Bool(false))),
        ]),
    )
}

impl GrepTool {
    /// The descriptor (see `grep_descriptor`).
    pub fn descriptor() -> (r: ToolDescriptor)
        ensures
            descriptor_view(r) == grep_descriptor(),
    {
        let v = vec![
            member("case_insensitive", prop_default_value("boolean", "Case-insensitive search (default: false)", JsonValue::Bool(false))),
            member("path", prop_default_value("string", "File or directory to search in (default: current directory)", text_value("."))),
            member("pattern", prop_value("string", "Regular expression pattern to search for")),
            member("recursive", prop_default_value("boolean", "Search recursively in subdirectories (default: false)", JsonValue::Bool(false))),
        ];
        proof {
            lemma_object_view(v@);
            assert(members_view(v@) =~= grep_descriptor().parameters->Object_0);
        }
        descriptor("grep", "Search for text patterns in files using regular expressions", "search", object(v))
    }
}

/// The edit tool's descriptor.
pub open spec fn edit_descriptor() -> DescriptorView {
    described(
        "edit"@,
        "Replace text in a file with new text"@,
        "filesystem"@,
        JsonView::Object(seq![
            ("new_string"@, prop("string"@, "New text to replace with"@)),
            ("old_string"@, prop("string"@, "Text to replace"@)),
            ("path"@, prop("string"@, "Path to the file to edit"@)),
            ("replace_all"@, prop_default("boolean"@, "Replace all occurrences (default: false, only first)"@, JsonView::Bool(false))),
        ]),
    )
}

impl EditTool {
    /// The descriptor (see `edit_descriptor`).
    pub fn descriptor() -> (r: ToolDescriptor)
        ensures
            descriptor_view(r) == edit_descriptor(),
    {
        let v = vec![
            member("new_string", prop_value("string", "New text to replace with")),
            member("old_string", prop_value("string", "Text to replace")),
            member("path", prop_value("string", "Path to the file to edit")),
            member("replace_all", prop_default_value("boolean", "Replace all occurrences (default: false, only first)", JsonValue::Bool(false))),
        ];
        proof {
            lemma_object_view(v@);
            assert(members_view(v@) =~= edit_descriptor().parameters->Object_0);
        }
        descriptor("edit", "Replace text in a file with new text", "filesystem", object(v))
    }
}

/// The head/tail tool's descriptor.
pub open spec fn head_tail_descriptor() -> DescriptorView {
    described(
        "head_tail"@,
        "View first or last N lines of a file"@,
        "filesystem"@,
        JsonView::Object(seq![
            ("lines"@, prop_default("number"@, "Number of lines to read (default: 10)"@, juint(10))),
            ("mode"@, enum_prop("Reading mode: 'head' for first lines, 'tail' for last lines"@, seq!["head"@, "tail"@], Some("head"@))),
            ("path"@, prop("string"@, "Path to the file to read"@)),
        ]),
    )
}

impl HeadTailTool {
    /// The descriptor (see `head_tail_descriptor`).
    pub fn descriptor() -> (r: ToolDescriptor)
        ensures
            descriptor_view(r) == head_tail_descriptor(),
    {
        let modes: [&str; 2] = ["head", "tail"];
        proof {
            assert(modes@.map_values(|s: &str| s@) =~= seq!["head"@, "tail"@]);
        }
        let v = vec![
            member("lines", prop_default_value("number", "Number of lines to read (default: 10)", uint_value(10))),
            member("mode", enum_value("Reading mode: 'head' for first lines, 'tail' for last lines", &modes, Some("head"))),
            member("path", prop_value("string", "Path to the file to read")),
        ];
        proof {
            lemma_object_view(v@);
            assert(members_view(v@) =~= head_tail_descriptor().parameters->Object_0);
        }
        descriptor("head_tail", "View first or last N lines of a file", "filesystem", object(v))
    }
}

/// The bash tool's descriptor.
pub open spec fn bash_descriptor() -> DescriptorView {
    described(
        "bash"@,
        "Execute shell commands and return the output"@,
        "execution"@,
        JsonView::Object(seq![
            ("args"@, args_schema()),
            ("command"@, prop("string"@, "Shell command to execute"@)),
            ("timeout"@, prop("number"@, "Maximum time to wait in seconds (default: no timeout)"@)),
            ("working_dir"@, prop("string"@, "Working directory for command execution"@)),
        ]),
    )
}

impl BashTool {
    /// The descriptor (see `bash_descriptor`).
    pub fn descriptor() -> (r: ToolDescriptor)
        ensures
            descriptor_view(r) == bash_descriptor(),
    {
        let v = vec![
            member("args", args_value()),
            member("command", prop_value("string", "Shell command to execute")),
            member("timeout", prop_value("number", "Maximum time to wait in seconds (default: no timeout)")),
            member("working_dir", prop_value("string", "Working directory for command execution")),
        ];
        proof {
            lemma_object_view(v@);
            assert(members_view(v@) =~= bash_descriptor().parameters->Object_0);
        }
        descriptor("bash", "Execute shell commands and return the output", "execution", object(v))
    }
}

/// The todo tool's descriptor.
pub open spec fn todo_descriptor() -> DescriptorView {
    described(
        "todowrite"@,
        "Create and track todo lists for multi-step tasks"@,
        "task_management"@,
        JsonView::Object(seq![
            ("todos"@, todos_schema()),
        ]),
    )
}

impl TodoWriteTool {
    /// The descriptor (see `todo_descriptor`).
    pub fn descriptor() -> (r: ToolDescriptor)
        ensures
            descriptor_view(r) == todo_descriptor(),
    {
        let v = vec![
            member("todos", todos_value()),
        ];
        proof {
            lemma_object_view(v@);
            assert(members_view(v@) =~= todo_descriptor().parameters->Object_0);
        }
        descriptor("todowrite", "Create and track todo lists for multi-step tasks", "task_management", object(v))
    }
}

/// The batch tool's descriptor.
pub open spec fn batch_descriptor() -> DescriptorView {
    described(
        "batch"@,
        "Execute multiple tool calls in parallel for improved performance"@,
        "execution"@,
        JsonView::Object(seq![
            ("tool_calls"@, tool_calls_schema()),
        ]),
    )
}

impl BatchTool {
    /// The descriptor (see `batch_descriptor`).
    pub fn descriptor() -> (r: ToolDescriptor)
        ensures
            descriptor_view(r) == batch_descriptor(),
    {
        let v = vec![
            member("tool_calls", tool_calls_value()),
        ];
        proof {
            lemma_object_view(v@);
            assert(members_view(v@) =~= batch_descriptor().parameters->Object_0);
        }
        descriptor("batch", "Execute multiple tool calls in parallel for improved performance", "execution", object(v))
    }
}

/// The web fetch tool's descriptor.
pub open spec fn webfetch_descriptor() -> DescriptorView {
    described(
        "webfetch"@,
        "Fetch content from URLs with format conversion support"@,
        "network"@,
        JsonView::Object(seq![
            ("format"@, enum_prop("The format to return the content in (text, markdown, or html)"@, seq!["text"@, "markdown"@, "html"@], Some("markdown"@))),
            ("timeout"@, prop_default("number"@, "Optional timeout in seconds (max 120)"@, juint(30))),
            ("url"@, prop("string"@, "The URL to fetch content from"@)),
        ]),
    )
}

impl WebFetchTool {
    /// The descriptor (see `webfetch_descriptor`).
    pub fn descriptor() -> (r: ToolDescriptor)
        ensures
            descriptor_view(r) == webfetch_descriptor(),
    {
        let formats: [&str; 3] = ["text", "markdown", "html"];
        proof {
            assert(formats@.map_values(|s: &str| s@) =~= seq!["text"@, "markdown"@, "html"@]);
        }
        let v = vec![
            member("format", enum_value("The format to return the content in (text, markdown, or html)", &formats, Some("markdown"))),
            member("timeout", prop_default_value("number", "Optional timeout in seconds (max 120)", uint_value(30))),
            member("url", prop_value("string", "The URL to fetch content from")),
        ];
        proof {
            lemma_object_view(v@);
            assert(members_view(v@) =~= webfetch_descriptor().parameters->Object_0);
        }
        descriptor("webfetch", "Fetch content from URLs with format conversion support", "network", object(v))
    }
}

/// The patch tool's descriptor.
pub open spec fn apply_patch_descriptor() -> DescriptorView {
    described(
        "apply_patch"@,
        "Apply unified diff patches to files"@,
        "file_operations"@,
        JsonView::Object(seq![
            ("patch_text"@, prop("string"@, "The full patch text in unified diff format"@)),
        ]),
    )
}

impl ApplyPatchTool {
    /// The descriptor (see `apply_patch_descriptor`).
    pub fn descriptor() -> (r: ToolDescriptor)
        ensures
            descriptor_view(r) == apply_patch_descriptor(),
    {
        let v = vec![
            member("patch_text", prop_value("string", "The full patch text in unified diff format")),
        ];
        proof {
            lemma_object_view(v@);
            assert(members_view(v@) =~= apply_patch_descriptor().parameters->Object_0);
        }
        descriptor("apply_patch", "Apply unified diff patches to files", "file_operations", object(v))
    }
}

/// The web search tool's descriptor.
pub open spec fn websearch_descriptor() -> DescriptorView {
    described(
        "websearch"@,
        "Perform web search using the Exa API"@,
        "network"@,
        JsonView::Object(seq![
            ("contextMaxCharacters"@, prop("number"@, "Maximum characters for context string (default: 10000)"@)),
            ("livecrawl"@, enum_prop("Live crawl mode - 'fallback': use live crawling as backup, 'preferred': prioritize live crawling"@, seq!["fallback"@, "preferred"@], None)),
            ("numResults"@, prop_default("number"@, "Number of search results to return (default: 8)"@, juint(8))),
            ("query"@, prop("string"@, "Web search query"@)),
            ("type"@, enum_prop("Search type - 'auto': balanced, 'fast': quick results, 'deep': comprehensive"@, seq!["auto"@, "fast"@, "deep"@], None)),
        ]),
    )
}

impl WebSearchTool {
    /// The descriptor (see `websearch_descriptor`).
    pub fn descriptor() -> (r: ToolDescriptor)
        ensures
            descriptor_view(r) == websearch_descriptor(),
    {
        let crawl_modes: [&str; 2] = ["fallback", "preferred"];
        let search_types: [&str; 3] = ["auto", "fast", "deep"];
        proof {
            assert(crawl_modes@.map_values(|s: &str| s@) =~= seq!["fallback"@, "preferred"@]);
            assert(search_types@.map_values(|s: &str| s@) =~= seq!["auto"@, "fast"@, "deep"@]);
        }
        let v = vec![
            member("contextMaxCharacters", prop_value("number", "Maximum characters for context string (default: 10000)")),
            member("livecrawl", enum_value("Live crawl mode - 'fallback': use live crawling as backup, 'preferred': prioritize live crawling", &crawl_modes, None)),
            member("numResults", prop_default_value("number", "Number of search results to return (default: 8)", uint_value(8))),
            member("query", prop_value("string", "Web search query")),
            member("type", enum_value("Search type - 'auto': balanced, 'fast': quick results, 'deep': comprehensive", &search_types, None)),
        ];
        proof {
            lemma_object_view(v@);
            assert(members_view(v@) =~= websearch_descriptor().parameters->Object_0);
        }
        descriptor("websearch", "Perform web search using the Exa API", "network", object(v))
    }
}

/// The code search tool's descriptor.
pub open spec fn codesearch_descriptor() -> DescriptorView {
    described(
        "codesearch"@,
        "Search for code examples and documentation using the Exa API"@,
        "network"@,
        JsonView::Object(seq![
            ("query"@, prop("string"@, "Search query to find relevant context for APIs, Libraries, and SDKs"@)),
            ("tokensNum"@, tokens_schema()),
        ]),
    )
}

impl CodeSearchTool {
    /// The descriptor (see `codesearch_descriptor`).
    pub fn descriptor() -> (r: ToolDescriptor)
        ensures
            descriptor_view(r) == codesearch_descriptor(),
    {
        let v = vec![
            member("query", prop_value("string", "Search query to find relevant context for APIs, Libraries, and SDKs")),
            member("tokensNum", tokens_value()),
        ];
        proof {
            lemma_object_view(v@);
            assert(members_view(v@) =~= codesearch_descriptor().parameters->Object_0);
        }
        descriptor("codesearch", "Search for code examples and documentation using the Exa API", "network", object(v))
    }
}

} // verus!
