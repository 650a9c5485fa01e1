//! The static registry of built-in tools and what clients are told of them.
use vstd::prelude::*;
use serde_json::Value;
use vstd::string::*;
use crate::text::str_eq;
use crate::json::{get_str, json_field, json_member, json_string, str_member, entry_views, json_array, json_array_value, json_object, json_object_value, json_str, json_string_value};
use crate::protocol::{opt_chars, ToolDescriptor, ToolExecutionKind, ToolOutputPolicy, ToolRisk};

verus! {

pub const LIST_FILES: &'static str = "list_files";
pub const READ_FILE: &'static str = "read_file";
pub const SEARCH_FILES: &'static str = "search_files";
pub const WRITE_FILE: &'static str = "write_file";
pub const EDIT_FILE: &'static str = "edit_file";
pub const DELETE_FILE: &'static str = "delete_file";
pub const DELETE_DIRECTORY: &'static str = "delete_directory";
pub const GET_CURRENT_WEATHER: &'static str = "get_current_weather";

#[derive(Clone, Copy, Debug, PartialEq, Eq, Structural)]
pub enum ToolExecution {
    ServerNative,
    LocalProxy { approval_required: bool },
}

/// Which parameter schema a tool takes.
#[derive(Clone, Copy, Debug, PartialEq, Eq, Structural)]
pub enum ToolSchema {
    Weather,
    ListFiles,
    ReadFile,
    SearchFiles,
    WriteFile,
    EditFile,
    DeleteFile,
    DeleteDirectory,
}

#[derive(Clone, Copy)]
pub struct ToolSpec {
    pub name: &'static str,
    pub description: &'static str,
    pub parameters: ToolSchema,
    pub execution: ToolExecution,
    pub risk: ToolRisk,
    pub output_policy: ToolOutputPolicy,
}

/// A schema property of the given JSON type with a description.
pub open spec fn prop_value(ty: Seq<char>, desc: Seq<char>) -> Value {
    json_object_value(seq![("type"@, json_string_value(ty)), ("description"@, json_string_value(desc))])
}

/// Entries of the `properties` object of a tool's parameter schema.
pub open spec fn schema_props(s: ToolSchema) -> Seq<(Seq<char>, Value)> {
    match s {
        ToolSchema::Weather => seq![("city"@, prop_value("string"@, "City name, for example Berlin or San Francisco."@)), ("country"@, prop_value("string"@, "Optional country name or country code for disambiguation."@)), ("unit"@, json_object_value(seq![("type"@, json_string_value("string"@)), ("description"@, json_string_value("Temperature unit. Defaults to celsius. Use fahrenheit only when explicitly requested."@)), ("enum"@, json_array_value(seq![json_string_value("celsius"@), json_string_value("fahrenheit"@)]))]))],
        ToolSchema::ListFiles => seq![("path"@, prop_value("string"@, "Workspace-relative directory. Defaults to ."@)), ("max_results"@, prop_value("integer"@, "Maximum number of files to return."@))],
        ToolSchema::ReadFile => seq![("path"@, prop_value("string"@, "Workspace-relative file path."@)), ("max_bytes"@, prop_value("integer"@, "Optional read limit in bytes."@))],
        ToolSchema::SearchFiles => seq![("query"@, prop_value("string"@, "Plain substring to search for."@)), ("path"@, prop_value("string"@, "Workspace-relative file or directory. Defaults to ."@)), ("max_results"@, prop_value("integer"@, "Maximum number of matches to return."@))],
        ToolSchema::WriteFile => seq![("path"@, prop_value("string"@, "Workspace-relative file path."@)), ("content"@, prop_value("string"@, "Complete UTF-8 file content to write."@))],
        ToolSchema::EditFile => seq![("path"@, prop_value("string"@, "Workspace-relative file path."@)), ("old"@, prop_value("string"@, "Exact text to replace."@)), ("new"@, prop_value("string"@, "Replacement text."@)), ("replace_all"@, prop_value("boolean"@, "Replace all matches. Defaults to false and then requires exactly one match."@))],
        ToolSchema::DeleteFile => seq![("path"@, prop_value("string"@, "Workspace-relative file path to permanently delete. Directories are refused."@))],
        ToolSchema::DeleteDirectory => seq![("path"@, prop_value("string"@, "Workspace-relative empty directory path to permanently delete. Files, non-empty directories, and the workspace root are refused."@))],
    }
}

/// The `required` list of a tool's parameter schema, when it has one.
pub open spec fn schema_required(s: ToolSchema) -> Option<Seq<Value>> {
    match s {
        ToolSchema::Weather => Some(seq![json_string_value("city"@)]),
        ToolSchema::ListFiles => None,
        ToolSchema::ReadFile => Some(seq![json_string_value("path"@)]),
        ToolSchema::SearchFiles => Some(seq![json_string_value("query"@)]),
        ToolSchema::WriteFile => Some(seq![json_string_value("path"@), json_string_value("content"@)]),
        ToolSchema::EditFile => Some(seq![json_string_value("path"@), json_string_value("old"@), json_string_value("new"@)]),
        ToolSchema::DeleteFile => Some(seq![json_string_value("path"@)]),
        ToolSchema::DeleteDirectory => Some(seq![json_string_value("path"@)]),
    }
}

/// The JSON schema of a tool's parameters.
pub open spec fn schema_value(s: ToolSchema) -> Value {
    match schema_required(s) {
        Some(req) => json_object_value(seq![
            ("type"@, json_string_value("object"@)),
            ("properties"@, json_object_value(schema_props(s))),
            ("required"@, json_array_value(req)),
        ]),
        None => json_object_value(seq![
            ("type"@, json_string_value("object"@)),
            ("properties"@, json_object_value(schema_props(s))),
        ]),
    }
}

fn entry(key: &str, value: Value) -> (r: (String, Value))
    ensures
        r.0@ == key@,
        r.1 == value,
{
    (key.to_owned(), value)
}

fn prop(ty: &str, desc: &str) -> (r: Value)
    ensures
        r == prop_value(ty@, desc@),
{
    let mut p: Vec<(String, Value)> = Vec::new();
    p.push(entry("type", json_str(ty)));
    p.push(entry("description", json_str(desc)));
    assert(entry_views(p@) =~= seq![("type"@, json_string_value(ty@)), ("description"@, json_string_value(desc@))]);
    json_object(p)
}

impl ToolSchema {
    fn parts(self) -> (r: (Vec<(String, Value)>, Option<Vec<Value>>))
        ensures
            entry_views(r.0@) == schema_props(self),
            r.1 matches Some(v) ==> schema_required(self) == Some(v@),
            r.1 is None ==> schema_required(self) is None,
    {
        match self {
        ToolSchema::Weather => {
            let mut props: Vec<(String, Value)> = Vec::new();
            props.push(entry("city", prop("string", "City name, for example Berlin or San Francisco.")));
            props.push(entry("country", prop("string", "Optional country name or country code for disambiguation.")));
            let mut choices: Vec<Value> = Vec::new();
            choices.push(json_str("celsius"));
            choices.push(json_str("fahrenheit"));
            assert(choices@ =~= seq![json_string_value("celsius"@), json_string_value("fahrenheit"@)]);
            let mut p: Vec<(String, Value)> = Vec::new();
            p.push(entry("type", json_str("string")));
            p.push(entry("description", json_str("Temperature unit. Defaults to celsius. Use fahrenheit only when explicitly requested.")));
            p.push(entry("enum", json_array(choices)));
            assert(entry_views(p@) =~= seq![("type"@, json_string_value("string"@)), ("description"@, json_string_value("Temperature unit. Defaults to celsius. Use fahrenheit only when explicitly requested."@)), ("enum"@, json_array_value(seq![json_string_value("celsius"@), json_string_value("fahrenheit"@)]))]);
            props.push(entry("unit", json_object(p)));
            assert(entry_views(props@) =~= schema_props(self));
            let mut req: Vec<Value> = Vec::new();
            req.push(json_str("city"));
            assert(req@ =~= schema_required(self)->0);
            (props, Some(req))
        },
        ToolSchema::ListFiles => {
            let mut props: Vec<(String, Value)> = Vec::new();
            props.push(entry("path", prop("string", "Workspace-relative directory. Defaults to .")));
            props.push(entry("max_results", prop("integer", "Maximum number of files to return.")));
            assert(entry_views(props@) =~= schema_props(self));
            (props, None)
        },
        ToolSchema::ReadFile => {
            let mut props: Vec<(String, Value)> = Vec::new();
            props.push(entry("path", prop("string", "Workspace-relative file path.")));
            props.push(entry("max_bytes", prop("integer", "Optional read limit in bytes.")));
            assert(entry_views(props@) =~= schema_props(self));
            let mut req: Vec<Value> = Vec::new();
            req.push(json_str("path"));
            assert(req@ =~= schema_required(self)->0);
            (props, Some(req))
        },
        ToolSchema::SearchFiles => {
            let mut props: Vec<(String, Value)> = Vec::new();
            props.push(entry("query", prop("string", "Plain substring to search for.")));
            props.push(entry("path", prop("string", "Workspace-relative file or directory. Defaults to .")));
            props.push(entry("max_results", prop("integer", "Maximum number of matches to return.")));
            assert(entry_views(props@) =~= schema_props(self));
            let mut req: Vec<Value> = Vec::new();
            req.push(json_str("query"));
            assert(req@ =~= schema_required(self)->0);
            (props, Some(req))
        },
        ToolSchema::WriteFile => {
            let mut props: Vec<(String, Value)> = Vec::new();
            props.push(entry("path", prop("string", "Workspace-relative file path.")));
            props.push(entry("content", prop("string", "Complete UTF-8 file content to write.")));
            assert(entry_views(props@) =~= schema_props(self));
            let mut req: Vec<Value> = Vec::new();
            req.push(json_str("path"));
            req.push(json_str("content"));
            assert(req@ =~= schema_required(self)->0);
            (props, Some(req))
        },
        ToolSchema::EditFile => {
            let mut props: Vec<(String, Value)> = Vec::new();
            props.push(entry("path", prop("string", "Workspace-relative file path.")));
            props.push(entry("old", prop("string", "Exact text to replace.")));
            props.push(entry("new", prop("string", "Replacement text.")));
            props.push(entry("replace_all", prop("boolean", "Replace all matches. Defaults to false and then requires exactly one match.")));
            assert(entry_views(props@) =~= schema_props(self));
            let mut req: Vec<Value> = Vec::new();
            req.push(json_str("path"));
            req.push(json_str("old"));
            req.push(json_str("new"));
            assert(req@ =~= schema_required(self)->0);
            (props, Some(req))
        },
        ToolSchema::DeleteFile => {
            let mut props: Vec<(String, Value)> = Vec::new();
            props.push(entry("path", prop("string", "Workspace-relative file path to permanently delete. Directories are refused.")));
            assert(entry_views(props@) =~= schema_props(self));
            let mut req: Vec<Value> = Vec::new();
            req.push(json_str("path"));
            assert(req@ =~= schema_required(self)->0);
            (props, Some(req))
        },
        ToolSchema::DeleteDirectory => {
            let mut props: Vec<(String, Value)> = Vec::new();
            props.push(entry("path", prop("string", "Workspace-relative empty directory path to permanently delete. Files, non-empty directories, and the workspace root are refused.")));
            assert(entry_views(props@) =~= schema_props(self));
            let mut req: Vec<Value> = Vec::new();
            req.push(json_str("path"));
            assert(req@ =~= schema_required(self)->0);
            (props, Some(req))
        },
        }
    }

    /// The JSON schema of the parameters.
    pub fn to_value(self) -> (r: Value)
        ensures
            r == schema_value(self),
            str_member(r, "type"@) == Some("object"@),
            json_member(r, "properties"@) == Some(json_object_value(schema_props(self))),
            json_member(r, "required"@) == match schema_required(self) {
                Some(req) => Some(json_array_value(req)),
                None => None::<Value>,
            },
    {
        proof {
            reveal_strlit("type");
            reveal_strlit("properties");
            reveal_strlit("required");
        }
        let (props, required) = self.parts();
        let mut top: Vec<(String, Value)> = Vec::new();
        top.push(entry("type", json_str("object")));
        top.push(entry("properties", json_object(props)));
        match required {
            Some(req) => {
                let ghost rv = req@;
                top.push(entry("required", json_array(req)));
                assert(entry_views(top@) =~= seq![
                    ("type"@, json_string_value("object"@)),
                    ("properties"@, json_object_value(schema_props(self))),
                    ("required"@, json_array_value(rv)),
                ]);
            },
            None => {
                assert(entry_views(top@) =~= seq![
                    ("type"@, json_string_value("object"@)),
                    ("properties"@, json_object_value(schema_props(self))),
                ]);
            },
        }
        let ghost t = top@;
        let r = json_object(top);
        proof {
            assert(t[0].0@ == "type"@ && t[1].0@ == "properties"@);
            assert forall|j: int| 0 <= j < t.len() && j != 0 implies (#[trigger] t[j]).0@ != t[0].0@ by {
                assert(t[j].0@.len() != t[0].0@.len());
            }
            assert forall|j: int| 0 <= j < t.len() && j != 1 implies (#[trigger] t[j]).0@ != t[1].0@ by {
                assert(t[j].0@.len() != t[1].0@.len());
            }
            assert(json_member(r, t[0].0@) == Some(t[0].1));
            assert(json_member(r, t[1].0@) == Some(t[1].1));
            if t.len() == 3 {
                assert(t[2].0@ == "required"@);
                assert forall|j: int| 0 <= j < t.len() && j != 2 implies (#[trigger] t[j]).0@ != t[2].0@ by {
                    assert(t[j].0@.len() != t[2].0@.len());
                }
                assert(json_member(r, t[2].0@) == Some(t[2].1));
            } else {
                assert forall|j: int| 0 <= j < t.len() implies (#[trigger] t[j]).0@ != "required"@ by {
                    assert(t[j].0@.len() != "required"@.len());
                }
            }
        }
        r
    }
}

/// The built-in tools, in the order clients list them.
pub open spec fn registry_spec() -> Seq<ToolSpec> {
    seq![
        ToolSpec {
            name: GET_CURRENT_WEATHER,
            description: "Get the current weather for a city. Use this for current weather questions.",
            parameters: ToolSchema::Weather,
            execution: ToolExecution::ServerNative,
            risk: ToolRisk::Network,
            output_policy: ToolOutputPolicy::FullAllowed,
        },
        ToolSpec {
            name: LIST_FILES,
            description: "List files under a workspace-relative directory. Use this to inspect project structure.",
            parameters: ToolSchema::ListFiles,
            execution: ToolExecution::LocalProxy { approval_required: false },
            risk: ToolRisk::ReadOnly,
            output_policy: ToolOutputPolicy::FullToModelSummaryToUi,
        },
        ToolSpec {
            name: READ_FILE,
            description: "Read a UTF-8 text file by workspace-relative path. Use this before editing existing files.",
            parameters: ToolSchema::ReadFile,
            execution: ToolExecution::LocalProxy { approval_required: false },
            risk: ToolRisk::ReadOnly,
            output_policy: ToolOutputPolicy::FullToModelSummaryToUi,
        },
        ToolSpec {
            name: SEARCH_FILES,
            description: "Search workspace text files with a plain substring query.",
            parameters: ToolSchema::SearchFiles,
            execution: ToolExecution::LocalProxy { approval_required: false },
            risk: ToolRisk::ReadOnly,
            output_policy: ToolOutputPolicy::FullToModelSummaryToUi,
        },
        ToolSpec {
            name: WRITE_FILE,
            description: "Create or overwrite a UTF-8 text file by workspace-relative path. Requires user approval.",
            parameters: ToolSchema::WriteFile,
            execution: ToolExecution::LocalProxy { approval_required: true },
            risk: ToolRisk::WritesFiles,
            output_policy: ToolOutputPolicy::FullToModelSummaryToUi,
        },
        ToolSpec {
            name: EDIT_FILE,
            description: "Edit a UTF-8 text file by exact string replacement. Requires user approval.",
            parameters: ToolSchema::EditFile,
            execution: ToolExecution::LocalProxy { approval_required: true },
            risk: ToolRisk::WritesFiles,
            output_policy: ToolOutputPolicy::FullToModelSummaryToUi,
        },
        ToolSpec {
            name: DELETE_FILE,
            description: "Permanently delete a workspace-relative file. Requires user approval and refuses directories.",
            parameters: ToolSchema::DeleteFile,
            execution: ToolExecution::LocalProxy { approval_required: true },
            risk: ToolRisk::DeletesFiles,
            output_policy: ToolOutputPolicy::FullToModelSummaryToUi,
        },
        ToolSpec {
            name: DELETE_DIRECTORY,
            description: "Delete an empty workspace-relative directory. Requires user approval, refuses files, refuses the workspace root, and does not delete recursively.",
            parameters: ToolSchema::DeleteDirectory,
            execution: ToolExecution::LocalProxy { approval_required: true },
            risk: ToolRisk::DeletesDirectories,
            output_policy: ToolOutputPolicy::FullToModelSummaryToUi,
        }
    ]
}

pub fn registry() -> (r: Vec<ToolSpec>)
    ensures
        r@ == registry_spec(),
{
    let mut v: Vec<ToolSpec> = Vec::new();
    v.push(ToolSpec {
        name: GET_CURRENT_WEATHER,
        description: "Get the current weather for a city. Use this for current weather questions.",
        parameters: ToolSchema::Weather,
        execution: ToolExecution::ServerNative,
        risk: ToolRisk::Network,
        output_policy: ToolOutputPolicy::FullAllowed,
    });
    v.push(ToolSpec {
        name: LIST_FILES,
        description: "List files under a workspace-relative directory. Use this to inspect project structure.",
        parameters: ToolSchema::ListFiles,
        execution: ToolExecution::LocalProxy { approval_required: false },
        risk: ToolRisk::ReadOnly,
        output_policy: ToolOutputPolicy::FullToModelSummaryToUi,
    });
    v.push(ToolSpec {
        name: READ_FILE,
        description: "Read a UTF-8 text file by workspace-relative path. Use this before editing existing files.",
        parameters: ToolSchema::ReadFile,
        execution: ToolExecution::LocalProxy { approval_required: false },
        risk: ToolRisk::ReadOnly,
        output_policy: ToolOutputPolicy::FullToModelSummaryToUi,
    });
    v.push(ToolSpec {
        name: SEARCH_FILES,
        description: "Search workspace text files with a plain substring query.",
        parameters: ToolSchema::SearchFiles,
        execution: ToolExecution::LocalProxy { approval_required: false },
        risk: ToolRisk::ReadOnly,
        output_policy: ToolOutputPolicy::FullToModelSummaryToUi,
    });
    v.push(ToolSpec {
        name: WRITE_FILE,
        description: "Create or overwrite a UTF-8 text file by workspace-relative path. Requires user approval.",
        parameters: ToolSchema::WriteFile,
        execution: ToolExecution::LocalProxy { approval_required: true },
        risk: ToolRisk::WritesFiles,
        output_policy: ToolOutputPolicy::FullToModelSummaryToUi,
    });
    v.push(ToolSpec {
        name: EDIT_FILE,
        description: "Edit a UTF-8 text file by exact string replacement. Requires user approval.",
        parameters: ToolSchema::EditFile,
        execution: ToolExecution::LocalProxy { approval_required: true },
        risk: ToolRisk::WritesFiles,
        output_policy: ToolOutputPolicy::FullToModelSummaryToUi,
    });
    v.push(ToolSpec {
        name: DELETE_FILE,
        description: "Permanently delete a workspace-relative file. Requires user approval and refuses directories.",
        parameters: ToolSchema::DeleteFile,
        execution: ToolExecution::LocalProxy { approval_required: true },
        risk: ToolRisk::DeletesFiles,
        output_policy: ToolOutputPolicy::FullToModelSummaryToUi,
    });
    v.push(ToolSpec {
        name: DELETE_DIRECTORY,
        description: "Delete an empty workspace-relative directory. Requires user approval, refuses files, refuses the workspace root, and does not delete recursively.",
        parameters: ToolSchema::DeleteDirectory,
        execution: ToolExecution::LocalProxy { approval_required: true },
        risk: ToolRisk::DeletesDirectories,
        output_policy: ToolOutputPolicy::FullToModelSummaryToUi,
    });
    assert(v@ =~= registry_spec());
    v
}

/// What clients are told of a registered tool.
pub open spec fn describes(d: ToolDescriptor, t: ToolSpec) -> bool {
    &&& d.name@ == t.name@
    &&& d.description@ == t.description@
    &&& d.risk == t.risk
    &&& d.output_policy == t.output_policy
    &&& d.parameters == schema_value(t.parameters)
    &&& match t.execution {
        ToolExecution::ServerNative => d.execution == ToolExecutionKind::ServerNative
            && !d.approval_required,
        ToolExecution::LocalProxy { approval_required } => d.execution
            == ToolExecutionKind::LocalProxy && d.approval_required == approval_required,
    }
}

pub fn descriptor_of(tool: ToolSpec) -> (r: ToolDescriptor)
    ensures
        describes(r, tool),
{
    let (execution, approval_required) = match tool.execution {
        ToolExecution::ServerNative => (ToolExecutionKind::ServerNative, false),
        ToolExecution::LocalProxy { approval_required } => {
            (ToolExecutionKind::LocalProxy, approval_required)
        },
    };
    ToolDescriptor {
        name: tool.name.to_owned(),
        description: tool.description.to_owned(),
        execution,
        approval_required,
        risk: tool.risk,
        output_policy: tool.output_policy,
        parameters: tool.parameters.to_value(),
    }
}

/// The descriptors of all built-in tools, in registry order; each needs
/// approval exactly when `approval_required` says so for its name, and is
/// run by the client exactly when `local_tool_names` lists its name.
pub fn descriptors() -> (r: Vec<ToolDescriptor>)
    ensures
        r@.len() == registry_spec().len(),
        forall|i: int| 0 <= i < r@.len() ==> describes(#[trigger] r@[i], registry_spec()[i]),
        forall|i: int|
            0 <= i < r@.len() ==> {
                &&& (#[trigger] r@[i]).approval_required == needs_approval(r@[i].name@)
                &&& (r@[i].execution == ToolExecutionKind::LocalProxy) == names_local(r@[i].name@)
            },
{
    let tools = registry();
    let mut out: Vec<ToolDescriptor> = Vec::new();
    let mut i: usize = 0;
    while i < tools.len()
        invariant
            tools@ == registry_spec(),
            i <= tools.len(),
            out@.len() == i,
            forall|j: int| 0 <= j < i ==> describes(#[trigger] out@[j], registry_spec()[j]),
        decreases tools.len() - i,
    {
        out.push(descriptor_of(tools[i]));
        i = i + 1;
    }
    proof {
        law_descriptors_agree_by_name(out@);
    }
    out
}

/// The first tool in `tools` with the given name.
pub open spec fn lookup(tools: Seq<ToolSpec>, name: Seq<char>) -> Option<ToolSpec>
    decreases tools.len(),
{
    if tools.len() == 0 {
        None
    } else if tools[0].name@ == name {
        Some(tools[0])
    } else {
        lookup(tools.drop_first(), name)
    }
}

/// The registered tool with the given name.
pub fn spec(name: &str) -> (r: Option<ToolSpec>)
    ensures
        r == lookup(registry_spec(), name@),
{
    let tools = registry();
    let mut i: usize = 0;
    assert(tools@.skip(0) =~= tools@);
    while i < tools.len()
        invariant
            tools@ == registry_spec(),
            i <= tools.len(),
            lookup(registry_spec(), name@) == lookup(tools@.skip(i as int), name@),
        decreases tools.len() - i,
    {
        assert(tools@.skip(i as int).drop_first() =~= tools@.skip(i + 1));
        if str_eq(tools[i].name, name) {
            return Some(tools[i]);
        }
        i = i + 1;
    }
    None
}

/// Names of the tools that run on the client, in registry order.
pub open spec fn local_names(tools: Seq<ToolSpec>) -> Seq<&'static str>
    decreases tools.len(),
{
    if tools.len() == 0 {
        Seq::empty()
    } else {
        let rest = local_names(tools.drop_last());
        if tools.last().execution is LocalProxy {
            rest.push(tools.last().name)
        } else {
            rest
        }
    }
}

pub fn local_tool_names() -> (r: Vec<&'static str>)
    ensures
        r@ == local_names(registry_spec()),
{
    let tools = registry();
    let mut out: Vec<&'static str> = Vec::new();
    let mut i: usize = 0;
    while i < tools.len()
        invariant
            tools@ == registry_spec(),
            i <= tools.len(),
            out@ == local_names(tools@.take(i as int)),
        decreases tools.len() - i,
    {
        assert(tools@.take(i + 1).drop_last() =~= tools@.take(i as int));
        match tools[i].execution {
            ToolExecution::LocalProxy { .. } => out.push(tools[i].name),
            ToolExecution::ServerNative => {},
        }
        i = i + 1;
    }
    assert(tools@.take(tools.len() as int) =~= tools@);
    out
}

/// Whether calling the named tool needs the user's approval first.
pub open spec fn needs_approval(name: Seq<char>) -> bool {
    match lookup(registry_spec(), name) {
        Some(t) => match t.execution {
            ToolExecution::LocalProxy { approval_required } => approval_required,
            ToolExecution::ServerNative => false,
        },
        None => false,
    }
}

pub fn approval_required(name: &str) -> (r: bool)
    ensures
        r == needs_approval(name@),
{
    match spec(name) {
        Some(tool) => match tool.execution {
            ToolExecution::LocalProxy { approval_required } => approval_required,
            ToolExecution::ServerNative => false,
        },
        None => false,
    }
}

pub open spec fn or_default(v: Option<Seq<char>>, d: Seq<char>) -> Seq<char> {
    match v {
        Some(x) => x,
        None => d,
    }
}

/// The one-line description of a tool call shown while it streams.
pub open spec fn stream_summary_text(name: Seq<char>, input: Value) -> Seq<char> {
    let path = or_default(str_member(input, "path"@), "."@);
    if name == LIST_FILES@ {
        "List files under "@ + path
    } else if name == READ_FILE@ {
        "Read "@ + path
    } else if name == SEARCH_FILES@ {
        "Search "@ + path + " for '"@ + or_default(str_member(input, "query"@), ""@) + "'"@
    } else if name == WRITE_FILE@ {
        "Write "@ + path
    } else if name == EDIT_FILE@ {
        "Edit "@ + path
    } else if name == DELETE_FILE@ {
        "Delete "@ + path
    } else if name == DELETE_DIRECTORY@ {
        "Delete directory "@ + path
    } else {
        "Run "@ + name
    }
}

fn str_or(v: Option<String>, d: &str) -> (r: String)
    ensures
        r@ == or_default(opt_chars(v), d@),
{
    match v {
        Some(x) => x,
        None => d.to_owned(),
    }
}

pub fn stream_summary(name: &str, input: &Value) -> (r: String)
    ensures
        r@ == stream_summary_text(name@, *input),
{
    let path = str_or(get_str(input, "path"), ".");
    let mut out: String;
    if str_eq(name, LIST_FILES) {
        out = "List files under ".to_owned();
    } else if str_eq(name, READ_FILE) {
        out = "Read ".to_owned();
    } else if str_eq(name, SEARCH_FILES) {
        let query = str_or(get_str(input, "query"), "");
        out = "Search ".to_owned();
        out.append(path.as_str());
        out.append(" for '");
        out.append(query.as_str());
        out.append("'");
        return out;
    } else if str_eq(name, WRITE_FILE) {
        out = "Write ".to_owned();
    } else if str_eq(name, EDIT_FILE) {
        out = "Edit ".to_owned();
    } else if str_eq(name, DELETE_FILE) {
        out = "Delete ".to_owned();
    } else if str_eq(name, DELETE_DIRECTORY) {
        out = "Delete directory ".to_owned();
    } else {
        out = "Run ".to_owned();
        out.append(name);
        return out;
    }
    out.append(path.as_str());
    out
}

/// What the client shows of a tool's result: its summary, the path it worked
/// on (when it names one) and the tool's name.
pub open spec fn sanitized_output_value(name: Seq<char>, value: Value) -> Value {
    let summary = or_default(str_member(value, "summary"@), "Tool completed"@);
    match str_member(value, "path"@) {
        Some(path) => json_object_value(seq![
            ("summary"@, json_string_value(summary)),
            ("path"@, json_string_value(path)),
            ("tool"@, json_string_value(name)),
        ]),
        None => json_object_value(seq![
            ("summary"@, json_string_value(summary)),
            ("tool"@, json_string_value(name)),
        ]),
    }
}

/// What is kept of a tool's output: its summary (or "Tool completed"), its
/// path where it has one, and the tool's name; nothing else of the output,
/// neither content nor listings nor matches, is kept.
pub fn sanitized_output(name: &str, value: &Value) -> (r: Value)
    ensures
        r == sanitized_output_value(name@, *value),
        str_member(r, "summary"@) == Some(or_default(str_member(*value, "summary"@), "Tool completed"@)),
        str_member(r, "tool"@) == Some(name@),
        str_member(r, "path"@) == str_member(*value, "path"@),
        forall|k: Seq<char>|
            k != "summary"@ && k != "path"@ && k != "tool"@ ==> #[trigger] json_member(r, k) is None,
{
    proof {
        reveal_strlit("summary");
        reveal_strlit("path");
        reveal_strlit("tool");
        assert("path"@[0] != "tool"@[0]);
    }
    let summary = str_or(get_str(value, "summary"), "Tool completed");
    let path = get_str(value, "path");
    let mut e: Vec<(String, Value)> = Vec::new();
    e.push(entry("summary", json_string(summary)));
    match path {
        Some(p) => {
            let ghost pv = p@;
            e.push(entry("path", json_string(p)));
            e.push(entry("tool", json_str(name)));
            assert(entry_views(e@) =~= seq![
                ("summary"@, json_string_value(summary@)),
                ("path"@, json_string_value(pv)),
                ("tool"@, json_string_value(name@)),
            ]);
        },
        None => {
            e.push(entry("tool", json_str(name)));
            assert(entry_views(e@) =~= seq![
                ("summary"@, json_string_value(summary@)),
                ("tool"@, json_string_value(name@)),
            ]);
        },
    }
    let ghost t = e@;
    let r = json_object(e);
    proof {
        assert forall|i: int, j: int| 0 <= i < t.len() && 0 <= j < t.len() && i != j implies (#[trigger] t[i]).0@
            != (#[trigger] t[j]).0@ by {
            assert(t[i].0@.len() != t[j].0@.len() || t[i].0@[0] != t[j].0@[0]);
        }
        assert(json_member(r, t[0].0@) == Some(t[0].1));
        assert(json_member(r, t[t.len() - 1].0@) == Some(t[t.len() - 1].1));
        if t.len() == 3 {
            assert(json_member(r, t[1].0@) == Some(t[1].1));
        } else {
            assert forall|i: int| 0 <= i < t.len() implies (#[trigger] t[i]).0@ != "path"@ by {
                assert(t[i].0@.len() != "path"@.len() || t[i].0@[0] != "path"@[0]);
            }
        }
        assert forall|k: Seq<char>| k != "summary"@ && k != "path"@ && k != "tool"@ implies #[trigger] json_member(
            r,
            k,
        ) is None by {
            assert forall|i: int| 0 <= i < t.len() implies (#[trigger] t[i]).0@ != k by {}
        }
    }
    r
}

pub fn sanitized_error(name: &str, error: &str) -> (r: Value)
    ensures
        r == json_object_value(seq![
            ("summary"@, json_string_value(error@)),
            ("tool"@, json_string_value(name@)),
        ]),
{
    let mut e: Vec<(String, Value)> = Vec::new();
    e.push(entry("summary", json_str(error)));
    e.push(entry("tool", json_str(name)));
    assert(entry_views(e@) =~= seq![
        ("summary"@, json_string_value(error@)),
        ("tool"@, json_string_value(name@)),
    ]);
    json_object(e)
}

/// The keys of a tool event that are safe to keep in history.
pub open spec fn kept_keys() -> Seq<Seq<char>> {
    seq![
        "summary"@,
        "path"@,
        "query"@,
        "bytes"@,
        "lines"@,
        "truncated"@,
        "overwritten"@,
        "replacements"@,
    ]
}

/// The members of `value` under the given keys, in the keys' order, skipping
/// keys it does not have.
pub open spec fn kept_members(value: Value, keys: Seq<Seq<char>>) -> Seq<(Seq<char>, Value)>
    decreases keys.len(),
{
    if keys.len() == 0 {
        Seq::empty()
    } else {
        let rest = kept_members(value, keys.drop_last());
        match json_member(value, keys.last()) {
            Some(m) => rest.push((keys.last(), m)),
            None => rest,
        }
    }
}

pub open spec fn sanitized_tool_value_of(value: Value) -> Value {
    let kept = kept_members(value, kept_keys());
    if kept.len() == 0 {
        json_object_value(seq![("summary"@, json_string_value("Tool event"@))])
    } else {
        json_object_value(kept)
    }
}

/// Keeps only the summary-like members of a tool event's input or output.
pub fn sanitized_tool_value(value: &Value) -> (r: Value)
    ensures
        r == sanitized_tool_value_of(*value),
        forall|k: Seq<char>|
            k != "summary"@ && k != "path"@ && k != "query"@ && k != "bytes"@ && k != "lines"@ && k
                != "truncated"@ && k != "overwritten"@ && k != "replacements"@ ==> #[trigger] json_member(
                r,
                k,
            ) is None,
{
    let mut keys: Vec<&str> = Vec::new();
    keys.push("summary");
    keys.push("path");
    keys.push("query");
    keys.push("bytes");
    keys.push("lines");
    keys.push("truncated");
    keys.push("overwritten");
    keys.push("replacements");
    let ghost kv = keys@.map_values(|k: &str| k@);
    assert(kv =~= kept_keys());
    let mut out: Vec<(String, Value)> = Vec::new();
    let mut i: usize = 0;
    while i < keys.len()
        invariant
            kv == keys@.map_values(|k: &str| k@),
            kv == kept_keys(),
            i <= keys.len(),
            entry_views(out@) == kept_members(*value, kv.take(i as int)),
        decreases keys.len() - i,
    {
        let key = keys[i];
        assert(kv.take(i + 1).drop_last() =~= kv.take(i as int));
        assert(kv.take(i + 1).last() == key@);
        match json_field(value, key) {
            Some(m) => {
                let ghost before = out@;
                out.push(entry(key, m));
                assert(entry_views(out@) =~= entry_views(before).push((key@, m)));
            },
            None => {},
        }
        i = i + 1;
    }
    assert(kv.take(keys.len() as int) =~= kv);
    proof {
        lemma_kept_member_keys(*value, kv);
    }
    if out.len() == 0 {
        let mut e: Vec<(String, Value)> = Vec::new();
        e.push(entry("summary", json_str("Tool event")));
        assert(entry_views(e@) =~= seq![("summary"@, json_string_value("Tool event"@))]);
        let ghost t = e@;
        let r = json_object(e);
        proof {
            assert forall|k: Seq<char>| k != "summary"@ implies #[trigger] json_member(r, k) is None by {
                assert forall|i: int| 0 <= i < t.len() implies (#[trigger] t[i]).0@ != k by {}
            }
        }
        r
    } else {
        let ghost t = out@;
        let r = json_object(out);
        proof {
            assert forall|k: Seq<char>|
                k != "summary"@ && k != "path"@ && k != "query"@ && k != "bytes"@ && k != "lines"@ && k
                    != "truncated"@ && k != "overwritten"@ && k != "replacements"@ implies #[trigger] json_member(
                r,
                k,
            ) is None by {
                assert forall|i: int| 0 <= i < t.len() implies (#[trigger] t[i]).0@ != k by {
                    assert(entry_views(t)[i] == (t[i].0@, t[i].1));
                    let j = choose|j: int| 0 <= j < kv.len() && kv[j] == (#[trigger] entry_views(t)[i]).0;
                }
            }
        }
        r
    }
}

proof fn lemma_kept_member_keys(value: Value, keys: Seq<Seq<char>>)
    ensures
        forall|i: int|
            0 <= i < kept_members(value, keys).len() ==> exists|j: int|
                0 <= j < keys.len() && keys[j] == (#[trigger] kept_members(value, keys)[i]).0,
    decreases keys.len(),
{
    if keys.len() > 0 {
        let d = keys.drop_last();
        lemma_kept_member_keys(value, d);
        let rest = kept_members(value, d);
        let km = kept_members(value, keys);
        assert forall|i: int| 0 <= i < km.len() implies exists|j: int|
            0 <= j < keys.len() && keys[j] == (#[trigger] km[i]).0 by {
            if i < rest.len() {
                assert(km[i] == rest[i]);
                let j = choose|j: int| 0 <= j < d.len() && d[j] == (#[trigger] rest[i]).0;
                assert(keys[j] == d[j]);
            } else {
                assert(keys[keys.len() - 1] == km[i].0);
            }
        }
    }
}

/// Guidance given to the coding agent before each conversation.
pub const CODING_AGENT_PREAMBLE: &'static str = "You are a coding agent. Use local file tools to inspect and modify the user's workspace instead of guessing, but keep research focused and answer once you have enough evidence. Use read_file before editing existing files. write_file, edit_file, delete_file, and delete_directory require user approval in the CLI. Use delete_file when the user asks to remove a file; use delete_directory only for empty directories. Do not empty a file as a substitute for deletion. Use get_current_weather for current weather questions; it defaults to celsius and should use fahrenheit only when explicitly requested.";

pub fn coding_agent_preamble() -> (r: String)
    ensures
        r@ == CODING_AGENT_PREAMBLE@,
{
    CODING_AGENT_PREAMBLE.to_owned()
}

/// No two built-in tools share a name.
pub proof fn law_registry_names_unique()
    ensures
        forall|i: int, j: int|
            #![trigger registry_spec()[i], registry_spec()[j]]
            0 <= i < j < registry_spec().len() ==> registry_spec()[i].name@
                != registry_spec()[j].name@,
{
    reveal_strlit("get_current_weather");
    reveal_strlit("list_files");
    reveal_strlit("read_file");
    reveal_strlit("search_files");
    reveal_strlit("write_file");
    reveal_strlit("edit_file");
    reveal_strlit("delete_file");
    reveal_strlit("delete_directory");
    let r = registry_spec();
    assert forall|i: int, j: int| #![trigger r[i], r[j]] 0 <= i < j < r.len() implies r[i].name@ != r[j].name@ by {
        assert(r[i].name@.len() != r[j].name@.len() || r[i].name@[0] != r[j].name@[0]
            || r[i].name@[1] != r[j].name@[1] || r[i].name@[2] != r[j].name@[2]
            || r[i].name@[7] != r[j].name@[7]);
    }
}

/// A client-side tool needs approval exactly when it is not read-only; tools
/// that the server runs itself only reach the network.
pub proof fn law_approval_follows_risk()
    ensures
        forall|i: int|
            0 <= i < registry_spec().len() ==> match (#[trigger] registry_spec()[i]).execution {
                ToolExecution::LocalProxy { approval_required } => approval_required
                    == (registry_spec()[i].risk != ToolRisk::ReadOnly),
                ToolExecution::ServerNative => registry_spec()[i].risk == ToolRisk::Network,
            },
{
}

/// Whether the client's list of its own tools names `name`.
pub open spec fn names_local(name: Seq<char>) -> bool {
    exists|j: int| 0 <= j < local_names(registry_spec()).len() && (#[trigger] local_names(
        registry_spec(),
    )[j])@ == name
}

proof fn lemma_lookup_finds(tools: Seq<ToolSpec>, i: int)
    requires
        0 <= i < tools.len(),
        forall|a: int, b: int|
            #![trigger tools[a], tools[b]]
            0 <= a < b < tools.len() ==> tools[a].name@ != tools[b].name@,
    ensures
        lookup(tools, tools[i].name@) == Some(tools[i]),
    decreases tools.len(),
{
    if i > 0 {
        let rest = tools.drop_first();
        assert(tools[0].name@ != tools[i].name@);
        assert forall|a: int, b: int| #![trigger rest[a], rest[b]] 0 <= a < b < rest.len() implies rest[a].name@
            != rest[b].name@ by {
            assert(rest[a] == tools[a + 1] && rest[b] == tools[b + 1]);
        }
        lemma_lookup_finds(rest, i - 1);
        assert(rest[i - 1] == tools[i]);
    }
}

proof fn lemma_local_names_members(tools: Seq<ToolSpec>, name: Seq<char>)
    ensures
        (exists|j: int| 0 <= j < local_names(tools).len() && (#[trigger] local_names(tools)[j])@ == name)
            <==> (exists|i: int| 0 <= i < tools.len() && (#[trigger] tools[i]).name@ == name
            && tools[i].execution is LocalProxy),
    decreases tools.len(),
{
    if tools.len() > 0 {
        let init = tools.drop_last();
        let rest = local_names(init);
        lemma_local_names_members(init, name);
        let l = local_names(tools);
        if exists|j: int| 0 <= j < l.len() && (#[trigger] l[j])@ == name {
            let j = choose|j: int| 0 <= j < l.len() && (#[trigger] l[j])@ == name;
            if j < rest.len() {
                assert(l[j] == rest[j]);
                let i = choose|i: int| 0 <= i < init.len() && (#[trigger] init[i]).name@ == name
                    && init[i].execution is LocalProxy;
                assert(tools[i] == init[i]);
            } else {
                assert(tools[tools.len() - 1].name@ == name);
            }
        }
        if exists|i: int| 0 <= i < tools.len() && (#[trigger] tools[i]).name@ == name
            && tools[i].execution is LocalProxy {
            let i = choose|i: int| 0 <= i < tools.len() && (#[trigger] tools[i]).name@ == name
                && tools[i].execution is LocalProxy;
            if i < tools.len() - 1 {
                assert(init[i] == tools[i]);
                let j = choose|j: int| 0 <= j < rest.len() && (#[trigger] rest[j])@ == name;
                assert(l[j] == rest[j]);
            } else {
                assert(l[rest.len() as int] == tools.last().name);
            }
        }
    }
}

/// Each descriptor the client offers agrees, by its name, with the
/// registry: the registry's entry of that name is the one it describes, it
/// needs approval exactly when `approval_required` says so for its name,
/// and it is run by the client exactly when `local_tool_names` lists its
/// name.
pub proof fn law_descriptors_agree_by_name(d: Seq<ToolDescriptor>)
    requires
        d.len() == registry_spec().len(),
        forall|i: int| 0 <= i < d.len() ==> describes(#[trigger] d[i], registry_spec()[i]),
    ensures
        forall|i: int|
            0 <= i < d.len() ==> {
                &&& lookup(registry_spec(), (#[trigger] d[i]).name@) == Some(registry_spec()[i])
                &&& d[i].approval_required == needs_approval(d[i].name@)
                &&& (d[i].execution == ToolExecutionKind::LocalProxy) == names_local(d[i].name@)
            },
{
    let r = registry_spec();
    law_registry_names_unique();
    assert forall|i: int| 0 <= i < d.len() implies {
        &&& lookup(registry_spec(), (#[trigger] d[i]).name@) == Some(registry_spec()[i])
        &&& d[i].approval_required == needs_approval(d[i].name@)
        &&& (d[i].execution == ToolExecutionKind::LocalProxy) == names_local(d[i].name@)
    } by {
        assert(describes(d[i], r[i]));
        lemma_lookup_finds(r, i);
        lemma_local_names_members(r, d[i].name@);
        if names_local(d[i].name@) {
            let k = choose|k: int| 0 <= k < r.len() && (#[trigger] r[k]).name@ == d[i].name@
                && r[k].execution is LocalProxy;
            if k != i {
                if k < i {
                    assert(r[k].name@ != r[i].name@);
                } else {
                    assert(r[i].name@ != r[k].name@);
                }
            }
        }
    }
}

} // verus!
