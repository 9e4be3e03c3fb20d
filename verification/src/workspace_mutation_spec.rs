//! How the workspace tools are described to the model.
use vstd::prelude::*;
use vstd::string::*;

verus! {

/// A JSON schema, as far as the tools need one.
pub enum JsonSchema {
    String { description: Option<String> },
    Object {
        /// Each property once, in the order of their names.
        properties: Vec<(String, JsonSchema)>,
        required: Option<Vec<String>>,
        additional_properties: Option<bool>,
    },
}

/// A function that the model can call.
pub struct ResponsesApiTool {
    pub name: String,
    pub description: String,
    pub strict: bool,
    pub defer_loading: Option<bool>,
    pub parameters: JsonSchema,
    pub output_schema: Option<JsonSchema>,
}

/// A tool that is offered to the model.
pub enum ToolSpec {
    Function(ResponsesApiTool),
}

/// What the descriptions of the workspace tools end with.
pub const DESCRIPTION_ENDING: &'static str =
    "\n\nRelative paths resolve from the active working directory. Later tool calls in the same batch start after this mutation succeeds and are cancelled if it fails.";

/// `schema` describes an object with one string property, `path`, which is required, and no other.
pub open spec fn takes_only_a_path(schema: JsonSchema) -> bool {
    match schema {
        JsonSchema::Object { properties, required, additional_properties } => {
            &&& properties@.len() == 1
            &&& properties@[0].0@ == "path"@
            &&& properties@[0].1 matches JsonSchema::String { description: Some(description) }
                && description@ == "Existing directory path."@
            &&& required matches Some(required) && required.deep_view() == seq!["path"@]
            &&& additional_properties == Some(false)
        },
        _ => false,
    }
}

/// `tool` is the description of a workspace tool with this name and summary.
pub open spec fn is_workspace_mutation_tool(
    tool: ToolSpec,
    name: Seq<char>,
    summary: Seq<char>,
) -> bool {
    match tool {
        ToolSpec::Function(tool) => {
            &&& tool.name@ == name
            &&& tool.description@ == summary + DESCRIPTION_ENDING@
            &&& !tool.strict
            &&& tool.defer_loading is None
            &&& takes_only_a_path(tool.parameters)
            &&& tool.output_schema is None
        },
    }
}

/// Describes the tool that sets the working directory.
pub fn create_set_working_directory_tool() -> (tool: ToolSpec)
    ensures
        is_workspace_mutation_tool(
            tool,
            "set_working_directory"@,
            "Changes the active working directory and adds it as a workspace root when needed."@,
        ),
{
    create_workspace_mutation_tool(
        "set_working_directory",
        "Changes the active working directory and adds it as a workspace root when needed.",
    )
}

/// Describes the tool that adds a workspace root.
pub fn create_add_workspace_root_tool() -> (tool: ToolSpec)
    ensures
        is_workspace_mutation_tool(
            tool,
            "add_workspace_root"@,
            "Adds a workspace root without changing the active working directory."@,
        ),
{
    create_workspace_mutation_tool(
        "add_workspace_root",
        "Adds a workspace root without changing the active working directory.",
    )
}

/// Describes a workspace tool.
pub fn create_workspace_mutation_tool(name: &str, summary: &str) -> (tool: ToolSpec)
    ensures
        is_workspace_mutation_tool(tool, name@, summary@),
{
    let mut properties: Vec<(String, JsonSchema)> = Vec::new();
    properties.push(
        (
            "path".to_owned(),
            JsonSchema::String { description: Some("Existing directory path.".to_owned()) },
        ),
    );
    let mut required: Vec<String> = Vec::new();
    required.push("path".to_owned());
    assert(required.deep_view() =~= seq!["path"@]);
    ToolSpec::Function(
        ResponsesApiTool {
            name: name.to_owned(),
            description: summary.to_owned().concat(DESCRIPTION_ENDING),
            strict: false,
            defer_loading: None,
            parameters: JsonSchema::Object {
                properties,
                required: Some(required),
                additional_properties: Some(false),
            },
            output_schema: None,
        },
    )
}

/// A workspace tool is described under the given name and with the whole given summary, to which it
/// is added where relative paths start and what becomes of later calls. It takes one argument, the
/// path, and no other.
pub proof fn law_a_workspace_tool_is_described_in_full(
    tool: ToolSpec,
    name: Seq<char>,
    summary: Seq<char>,
)
    requires
        is_workspace_mutation_tool(tool, name, summary),
    ensures
        tool matches ToolSpec::Function(tool) && {
            &&& tool.name@ == name
            &&& tool.description@ == summary
                + "\n\nRelative paths resolve from the active working directory. Later tool calls in the same batch start after this mutation succeeds and are cancelled if it fails."@
            &&& !tool.strict && tool.defer_loading is None && tool.output_schema is None
            &&& tool.parameters matches JsonSchema::Object {
                properties,
                required,
                additional_properties,
            } && {
                &&& properties@.len() == 1
                &&& properties@[0].0@ == "path"@
                &&& properties@[0].1 is String
                &&& properties@[0].1->description is Some
                &&& properties@[0].1->description->0@ == "Existing directory path."@
                &&& required is Some
                &&& required->0.deep_view() == seq!["path"@]
                &&& additional_properties == Some(false)
            }
        },
{
}

} // verus!
