//! The tool map: every tool the agent offers, with the descriptor the model
//! sees (its parameters in object-schema form) and what it needs to run.
use vstd::prelude::*;
use crate::tools::application::apply_patch_tool::ApplyPatchTool;
use crate::tools::application::bash_tool::BashTool;
use crate::tools::application::batch_tool::BatchTool;
use crate::tools::application::codesearch_tool::CodeSearchTool;
use crate::tools::application::descriptors::{
    apply_patch_descriptor, bash_descriptor, batch_descriptor, codesearch_descriptor, descriptor_view, edit_descriptor,
    glob_descriptor, grep_descriptor, head_tail_descriptor, list_descriptor, read_descriptor, stat_descriptor,
    todo_descriptor, webfetch_descriptor, websearch_descriptor, write_descriptor, DescriptorView, ToolDescriptor,
};
use crate::tools::application::edit_tool::EditTool;
use crate::tools::application::glob_tool::GlobTool;
use crate::tools::application::grep_tool::GrepTool;
use crate::tools::application::head_tail_tool::HeadTailTool;
use crate::tools::application::list_tool::ListTool;
use crate::tools::application::read_tool::ReadTool;
use crate::tools::application::stat_tool::StatTool;
use crate::tools::application::todo_tool::TodoWriteTool;
use crate::tools::application::webfetch_tool::WebFetchTool;
use crate::tools::application::websearch_tool::WebSearchTool;
use crate::tools::application::write_tool::WriteTool;
use crate::tools::domain::json_value::{jget, jstr, JsonView};
use crate::tools::domain::provider::DependencyType;
use crate::tools::schema_fix::{normalize_parameters, normalized};

verus! {

/// The tools, one per provider.
#[derive(Debug, Clone, Copy, PartialEq, Eq, Structural)]
pub enum ToolKind {
    List,
    Read,
    Write,
    Stat,
    Glob,
    Grep,
    Edit,
    HeadTail,
    Bash,
    TodoWrite,
    Batch,
    WebFetch,
    ApplyPatch,
    WebSearch,
    CodeSearch,
}

/// The providers in registration order: the file-system tools, the
/// command tool, the stateless tools, then the network and patch tools.
pub open spec fn provider_order() -> Seq<ToolKind> {
    seq![
        ToolKind::List,
        ToolKind::Read,
        ToolKind::Write,
        ToolKind::Stat,
        ToolKind::Glob,
        ToolKind::Grep,
        ToolKind::Edit,
        ToolKind::HeadTail,
        ToolKind::Bash,
        ToolKind::TodoWrite,
        ToolKind::Batch,
        ToolKind::WebFetch,
        ToolKind::ApplyPatch,
        ToolKind::WebSearch,
        ToolKind::CodeSearch,
    ]
}

impl ToolKind {
    /// The tool's descriptor as the tool gives it.
    pub open spec fn raw_descriptor(self) -> DescriptorView {
        match self {
            ToolKind::List => list_descriptor(),
            ToolKind::Read => read_descriptor(),
            ToolKind::Write => write_descriptor(),
            ToolKind::Stat => stat_descriptor(),
            ToolKind::Glob => glob_descriptor(),
            ToolKind::Grep => grep_descriptor(),
            ToolKind::Edit => edit_descriptor(),
            ToolKind::HeadTail => head_tail_descriptor(),
            ToolKind::Bash => bash_descriptor(),
            ToolKind::TodoWrite => todo_descriptor(),
            ToolKind::Batch => batch_descriptor(),
            ToolKind::WebFetch => webfetch_descriptor(),
            ToolKind::ApplyPatch => apply_patch_descriptor(),
            ToolKind::WebSearch => websearch_descriptor(),
            ToolKind::CodeSearch => codesearch_descriptor(),
        }
    }

    /// The tool's id.
    pub open spec fn id(self) -> Seq<char> {
        self.raw_descriptor().id
    }

    /// What the tool needs: a file system for the file tools, a command
    /// executor for bash, nothing for the others.
    pub open spec fn dependency(self) -> DependencyType {
        match self {
            ToolKind::List | ToolKind::Read | ToolKind::Write | ToolKind::Stat | ToolKind::Glob | ToolKind::Grep
            | ToolKind::Edit | ToolKind::HeadTail => DependencyType::FileSystem,
            ToolKind::Bash => DependencyType::CommandExecutor,
            _ => DependencyType::NoDependency,
        }
    }

    /// The tool's id.
    pub fn tool_id(&self) -> (r: &'static str)
        ensures
            r@ == self.id(),
    {
        let r = match self {
            ToolKind::List => "list",
            ToolKind::Read => "read",
            ToolKind::Write => "write",
            ToolKind::Stat => "stat",
            ToolKind::Glob => "glob",
            ToolKind::Grep => "grep",
            ToolKind::Edit => "edit",
            ToolKind::HeadTail => "head_tail",
            ToolKind::Bash => "bash",
            ToolKind::TodoWrite => "todowrite",
            ToolKind::Batch => "batch",
            ToolKind::WebFetch => "webfetch",
            ToolKind::ApplyPatch => "apply_patch",
            ToolKind::WebSearch => "websearch",
            ToolKind::CodeSearch => "codesearch",
        };
        r
    }

    /// What the tool needs to run.
    pub fn dependency_type(&self) -> (r: DependencyType)
        ensures
            r == self.dependency(),
    {
        match self {
            ToolKind::List | ToolKind::Read | ToolKind::Write | ToolKind::Stat | ToolKind::Glob | ToolKind::Grep
            | ToolKind::Edit | ToolKind::HeadTail => DependencyType::FileSystem,
            ToolKind::Bash => DependencyType::CommandExecutor,
            _ => DependencyType::NoDependency,
        }
    }

    /// The tool's descriptor as the tool gives it.
    pub fn descriptor(&self) -> (r: ToolDescriptor)
        ensures
            descriptor_view(r) == self.raw_descriptor(),
    {
        match self {
            ToolKind::List => ListTool::descriptor(),
            ToolKind::Read => ReadTool::descriptor(),
            ToolKind::Write => WriteTool::descriptor(),
            ToolKind::Stat => StatTool::descriptor(),
            ToolKind::Glob => GlobTool::descriptor(),
            ToolKind::Grep => GrepTool::descriptor(),
            ToolKind::Edit => EditTool::descriptor(),
            ToolKind::HeadTail => HeadTailTool::descriptor(),
            ToolKind::Bash => BashTool::descriptor(),
            ToolKind::TodoWrite => TodoWriteTool::descriptor(),
            ToolKind::Batch => BatchTool::descriptor(),
            ToolKind::WebFetch => WebFetchTool::descriptor(),
            ToolKind::ApplyPatch => ApplyPatchTool::descriptor(),
            ToolKind::WebSearch => WebSearchTool::descriptor(),
            ToolKind::CodeSearch => CodeSearchTool::descriptor(),
        }
    }
}

/// All tool providers, in registration order.
pub fn all_providers() -> (r: Vec<ToolKind>)
    ensures
        r@ == provider_order(),
{
    let r = vec![
        ToolKind::List,
        ToolKind::Read,
        ToolKind::Write,
        ToolKind::Stat,
        ToolKind::Glob,
        ToolKind::Grep,
        ToolKind::Edit,
        ToolKind::HeadTail,
        ToolKind::Bash,
        ToolKind::TodoWrite,
        ToolKind::Batch,
        ToolKind::WebFetch,
        ToolKind::ApplyPatch,
        ToolKind::WebSearch,
        ToolKind::CodeSearch,
    ];
    assert(r@ =~= provider_order());
    r
}

/// A tool as the map holds it.
#[derive(Debug)]
pub struct ToolEntry {
    pub kind: ToolKind,
    /// The descriptor with its parameters in object-schema form.
    pub descriptor: ToolDescriptor,
    pub dependency: DependencyType,
}

/// The entry the map holds for a tool: its descriptor with the parameters
/// normalized, and its dependency.
pub open spec fn entry_for(k: ToolKind) -> (ToolKind, DescriptorView, DependencyType) {
    (k, DescriptorView { parameters: normalized(k.raw_descriptor().parameters), ..k.raw_descriptor() }, k.dependency())
}

pub open spec fn entry_view(e: ToolEntry) -> (ToolKind, DescriptorView, DependencyType) {
    (e.kind, descriptor_view(e.descriptor), e.dependency)
}

/// The tools of a provider list other than batch, in order.
pub open spec fn without_batch(s: Seq<ToolKind>) -> Seq<ToolKind>
    decreases s.len(),
{
    if s.len() == 0 {
        s
    } else if s.last() == ToolKind::Batch {
        without_batch(s.drop_last())
    } else {
        without_batch(s.drop_last()).push(s.last())
    }
}

/// The order of the map: every provider but batch, then batch, which is
/// built once the others are.
pub open spec fn map_order() -> Seq<ToolKind> {
    without_batch(provider_order()).push(ToolKind::Batch)
}

/// The map of tools by id.
pub struct ToolMap {
    entries: Vec<ToolEntry>,
}

impl ToolMap {
    /// The entries, in the order they were built.
    pub closed spec fn entries_view(&self) -> Seq<(ToolKind, DescriptorView, DependencyType)> {
        self.entries@.map_values(|e: ToolEntry| entry_view(e))
    }

    /// Number of tools.
    pub fn len(&self) -> (r: usize)
        ensures
            r == self.entries_view().len(),
    {
        self.entries.len()
    }

    /// The entries, in the order they were built.
    pub fn entries(&self) -> (r: &Vec<ToolEntry>)
        ensures
            r@.map_values(|e: ToolEntry| entry_view(e)) == self.entries_view(),
    {
        &self.entries
    }

    /// The entry of the tool with the given id.
    pub fn get(&self, id: &str) -> (r: Option<&ToolEntry>)
        ensures
            match r {
                Some(e) => exists|i: int| 0 <= i < self.entries_view().len() && self.entries_view()[i] == entry_view(*e)
                    && entry_view(*e).1.id == id@,
                None => forall|i: int| 0 <= i < self.entries_view().len() ==> self.entries_view()[i].1.id != id@,
            },
    {
        let ghost ev = self.entries_view();
        let mut i: usize = 0;
        while i < self.entries.len()
            invariant
                i <= self.entries@.len(),
                ev == self.entries@.map_values(|e: ToolEntry| entry_view(e)),
                forall|k: int| 0 <= k < i ==> ev[k].1.id != id@,
            decreases self.entries.len() - i,
        {
            let e = &self.entries[i];
            assert(ev[i as int] == entry_view(*e));
            if crate::text::chars_eq(crate::text::chars_of(e.descriptor.id.as_str()).as_slice(), crate::text::chars_of(id).as_slice()) {
                return Some(e);
            }
            i = i + 1;
        }
        None
    }

    /// Whether a tool with the given id is in the map.
    pub fn contains_key(&self, id: &str) -> (r: bool)
        ensures
            r == exists|i: int| 0 <= i < self.entries_view().len() && self.entries_view()[i].1.id == id@,
    {
        match self.get(id) {
            Some(_) => true,
            None => false,
        }
    }
}

/// Builds the tool map: every provider's tool but batch, in order, then
/// batch; each descriptor's parameters normalized to an object schema.
pub fn build_tool_map() -> (r: ToolMap)
    ensures
        r.entries_view() == map_order().map_values(|k: ToolKind| entry_for(k)),
{
    let providers = all_providers();
    let mut entries: Vec<ToolEntry> = Vec::new();
    let mut i: usize = 0;
    while i < providers.len()
        invariant
            providers@ == provider_order(),
            i <= providers@.len(),
            entries@.map_values(|e: ToolEntry| entry_view(e)) == without_batch(providers@.take(i as int)).map_values(
                |k: ToolKind| entry_for(k),
            ),
        decreases providers.len() - i,
    {
        let kind = providers[i];
        let ghost before = entries@;
        assert(providers@.take(i + 1).drop_last() =~= providers@.take(i as int));
        if kind != ToolKind::Batch {
            entries.push(entry(kind));
            assert(entries@.map_values(|e: ToolEntry| entry_view(e)) =~= before.map_values(|e: ToolEntry| entry_view(e)).push(
                entry_for(kind),
            ));
        }
        i = i + 1;
    }
    assert(providers@.take(providers@.len() as int) =~= providers@);
    let ghost before = entries@;
    entries.push(entry(ToolKind::Batch));
    assert(entries@.map_values(|e: ToolEntry| entry_view(e)) =~= before.map_values(|e: ToolEntry| entry_view(e)).push(
        entry_for(ToolKind::Batch),
    ));
    ToolMap { entries }
}

/// A tool's entry in the map.
fn entry(kind: ToolKind) -> (r: ToolEntry)
    ensures
        entry_view(r) == entry_for(kind),
{
    let ToolDescriptor { id, name, description, category, parameters } = kind.descriptor();
    let parameters = normalize_parameters(parameters);
    ToolEntry {
        kind,
        descriptor: ToolDescriptor { id, name, description, category, parameters },
        dependency: kind.dependency_type(),
    }
}

/// Normalizing an object always gives an object schema: one whose `type`
/// is the string `object`.
pub proof fn law_normalized_object_is_schema(v: JsonView)
    requires
        v is Object,
    ensures
        jstr(jget(normalized(v), "type"@)) == Some("object"@),
{
}

/// The map holds fifteen tools: the providers' tools but batch, in
/// registration order, then batch.
pub proof fn law_tool_map_order()
    ensures
        map_order() == seq![
            ToolKind::List,
            ToolKind::Read,
            ToolKind::Write,
            ToolKind::Stat,
            ToolKind::Glob,
            ToolKind::Grep,
            ToolKind::Edit,
            ToolKind::HeadTail,
            ToolKind::Bash,
            ToolKind::TodoWrite,
            ToolKind::WebFetch,
            ToolKind::ApplyPatch,
            ToolKind::WebSearch,
            ToolKind::CodeSearch,
            ToolKind::Batch,
        ],
{
    reveal_with_fuel(without_batch, 16);
    assert(without_batch(provider_order()) =~= seq![
        ToolKind::List,
        ToolKind::Read,
        ToolKind::Write,
        ToolKind::Stat,
        ToolKind::Glob,
        ToolKind::Grep,
        ToolKind::Edit,
        ToolKind::HeadTail,
        ToolKind::Bash,
        ToolKind::TodoWrite,
        ToolKind::WebFetch,
        ToolKind::ApplyPatch,
        ToolKind::WebSearch,
        ToolKind::CodeSearch,
    ]);
}

} // verus!
