use coding_agent::tools::application::bash_tool::BashTool;
use coding_agent::tools::application::head_tail_tool::HeadTailTool;
use coding_agent::tools::application::read_tool::ReadTool;
use coding_agent::tools::domain::json_value::JsonValue;
use coding_agent::tools::domain::provider::DependencyType;
use coding_agent::tools::tool_map::{all_providers, build_tool_map, ToolKind};

fn strings(v: &JsonValue) -> Vec<&str> {
    v.as_array().unwrap().iter().map(|x| x.as_str().unwrap()).collect()
}

#[test]
fn test_build_tool_map() {
    let tools = build_tool_map();
    // Base tools, and the network and patch tools, which are all built.
    let expected_count = 11 + 4;
    assert!(tools.contains_key("webfetch"));
    assert!(tools.contains_key("apply_patch"));
    assert!(tools.contains_key("websearch"));
    assert!(tools.contains_key("codesearch"));

    assert_eq!(tools.len(), expected_count);
    assert!(tools.contains_key("glob"));
    assert!(tools.contains_key("grep"));
    assert!(tools.contains_key("read"));
    assert!(tools.contains_key("write"));
    assert!(tools.contains_key("bash"));
    assert!(tools.contains_key("edit"));
    assert!(tools.contains_key("list"));
    assert!(tools.contains_key("stat"));
    assert!(tools.contains_key("head_tail"));
    assert!(tools.contains_key("todowrite"));
    assert!(tools.contains_key("batch"));
}

#[test]
fn tool_map_order_dependencies_and_schemas() {
    let tools = build_tool_map();
    let ids: Vec<&str> = tools.entries().iter().map(|e| e.descriptor.id.as_str()).collect();
    assert_eq!(
        ids,
        vec![
            "list", "read", "write", "stat", "glob", "grep", "edit", "head_tail", "bash", "todowrite", "webfetch",
            "apply_patch", "websearch", "codesearch", "batch"
        ]
    );
    assert!(!tools.contains_key("missing"));
    assert!(tools.get("missing").is_none());
    assert_eq!(tools.get("bash").unwrap().dependency, DependencyType::CommandExecutor);
    assert_eq!(tools.get("read").unwrap().dependency, DependencyType::FileSystem);
    assert_eq!(tools.get("batch").unwrap().dependency, DependencyType::NoDependency);
    for e in tools.entries() {
        assert_eq!(e.descriptor.name, e.descriptor.id);
        assert_eq!(e.descriptor.parameters.get("type").unwrap().as_str(), Some("object"));
    }
    let read = &tools.get("read").unwrap().descriptor;
    assert_eq!(read.category.as_deref(), Some("filesystem"));
    assert_eq!(strings(read.parameters.get("required").unwrap()), vec!["limit", "path"]);
    let bash = &tools.get("bash").unwrap().descriptor;
    assert_eq!(strings(bash.parameters.get("required").unwrap()), vec!["args", "command", "timeout", "working_dir"]);
    let list = &tools.get("list").unwrap().descriptor;
    assert!(list.parameters.get("required").is_none());
}

#[test]
fn providers_and_raw_descriptors() {
    let providers = all_providers();
    assert_eq!(providers.len(), 15);
    assert_eq!(providers[10], ToolKind::Batch);
    assert_eq!(providers[7].tool_id(), "head_tail");
    assert_eq!(providers[7].dependency_type(), DependencyType::FileSystem);

    let read = ReadTool::descriptor();
    assert_eq!(read.id, "read");
    assert_eq!(read.description, "Read file contents with optional offset and limit for partial reading");
    let offset = read.parameters.get("offset").unwrap();
    assert_eq!(offset.get("default").unwrap().as_u64(), Some(0));
    assert_eq!(offset.get("type").unwrap().as_str(), Some("number"));
    assert!(read.parameters.get("type").is_none());

    let mode = HeadTailTool::descriptor().parameters.get("mode").unwrap().duplicate();
    assert_eq!(strings(mode.get("enum").unwrap()), vec!["head", "tail"]);
    assert_eq!(mode.get("default").unwrap().as_str(), Some("head"));

    let args = BashTool::descriptor().parameters.get("args").unwrap().duplicate();
    assert_eq!(args.get("items").unwrap().get("type").unwrap().as_str(), Some("string"));
}
