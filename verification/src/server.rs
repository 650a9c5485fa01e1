//! What the server decides: how a JSON-RPC request is routed and checked,
//! what of a streamed turn is stored, how the model's output becomes stream
//! events, and how a local tool call is announced.
use vstd::prelude::*;
use vstd::string::*;
use serde_json::Value;
use crate::guard::{blank, trim_str, trimmed, is_blank};
use crate::ids::{parse_uuid, uuid_parse_of};
use crate::json::{
    json_array, json_array_value, json_field, json_member, json_parse, json_parse_of,
    json_str_of, json_string, json_string_value, str_member, get_str, summary_object, summary_value,
    json_as_str, json_bool, json_bool_value, json_object, json_object_value, json_str, entry_views,
};
use crate::protocol::{
    clone_opt_string, clone_opt_value, event_effect, opt_chars, ChatStreamEvent, HealthResponse, UiMessage,
    RpcError, RpcRequest, RpcResponse, ToolDescriptor, ToolExecutionKind,
    ToolOutputPolicy, ToolRisk, ToolState, UiRole, RPC_HEALTH_CHECK, RPC_SESSIONS_GET, RPC_SESSIONS_LIST,
    RPC_TOOLS_DELETE_TOOL, RPC_TOOLS_DELETE_VERSION, RPC_TOOLS_LIST, RPC_TOOLS_MANAGEMENT,
    RPC_TOOLS_REGISTER, RPC_TOOLS_RESULT, RPC_TOOLS_SAVE_DRAFT,
};
use crate::store::{risk_from_str, risk_of};
use crate::text::str_eq;
use crate::tools::{
    lookup, registry_spec, sanitized_output, sanitized_output_value, sanitized_tool_value,
    sanitized_tool_value_of, spec, stream_summary, stream_summary_text, ToolExecution,
};

verus! {

/// The name the server reports itself by.
pub const SERVICE_NAME: &'static str = "agentic-server";

/// How many tool rounds the agent may take in one turn.
pub const AGENT_MAX_TOOL_TURNS: usize = 12;

pub fn health_response() -> (r: HealthResponse)
    ensures
        r.status@ == "ok"@,
        r.service@ == SERVICE_NAME@,
{
    HealthResponse::ok(SERVICE_NAME.to_owned())
}

/// A JSON-RPC call the server knows, with what it needs to carry it out.
pub enum RpcCall {
    Health,
    SessionsList,
    SessionsGet { id: String },
    ToolsList,
    ToolsManagement,
    SaveDraft { params: Value },
    Register { params: Value },
    DeleteVersion { params: Value },
    DeleteTool { params: Value },
    ToolResult { params: Value },
}

/// The methods that take their arguments as parameters.
pub open spec fn takes_params(method: Seq<char>) -> bool {
    method == RPC_TOOLS_SAVE_DRAFT@ || method == RPC_TOOLS_REGISTER@ || method
        == RPC_TOOLS_DELETE_VERSION@ || method == RPC_TOOLS_DELETE_TOOL@ || method
        == RPC_TOOLS_RESULT@
}

/// The methods the server knows.
pub open spec fn known_method(method: Seq<char>) -> bool {
    method == RPC_HEALTH_CHECK@ || method == RPC_SESSIONS_LIST@ || method == RPC_SESSIONS_GET@
        || method == RPC_TOOLS_LIST@ || method == RPC_TOOLS_MANAGEMENT@ || takes_params(method)
}

/// The session id a `sessions.get` request names: its `id` parameter when
/// that is a string, or nothing.
pub open spec fn session_id_of(params: Option<Value>) -> Seq<char> {
    match params {
        Some(p) => match str_member(p, "id"@) {
            Some(s) => s,
            None => Seq::empty(),
        },
        None => Seq::empty(),
    }
}

/// `r` is a failure reply to request `id` with the given code.
pub open spec fn is_failure(r: RpcResponse<Value>, id: u64, code: int) -> bool {
    &&& r.jsonrpc@ == "2.0"@
    &&& r.result is None
    &&& r.error matches Some(e)
    &&& e.code == code
    &&& r.id == id
}

/// The reply that refuses a request as invalid JSON-RPC.
pub open spec fn is_invalid_request(r: RpcResponse<Value>, id: u64) -> bool {
    &&& is_failure(r, id, -32600)
    &&& r.error.unwrap().message@ == "invalid JSON-RPC request"@
}

/// The method names are distinct.
proof fn lemma_methods_distinct()
    ensures
        RPC_HEALTH_CHECK@ != RPC_SESSIONS_LIST@,
        RPC_HEALTH_CHECK@ != RPC_SESSIONS_GET@,
        RPC_HEALTH_CHECK@ != RPC_TOOLS_LIST@,
        RPC_HEALTH_CHECK@ != RPC_TOOLS_MANAGEMENT@,
        RPC_HEALTH_CHECK@ != RPC_TOOLS_SAVE_DRAFT@,
        RPC_HEALTH_CHECK@ != RPC_TOOLS_REGISTER@,
        RPC_HEALTH_CHECK@ != RPC_TOOLS_DELETE_VERSION@,
        RPC_HEALTH_CHECK@ != RPC_TOOLS_DELETE_TOOL@,
        RPC_HEALTH_CHECK@ != RPC_TOOLS_RESULT@,
        RPC_SESSIONS_LIST@ != RPC_SESSIONS_GET@,
        RPC_SESSIONS_LIST@ != RPC_TOOLS_LIST@,
        RPC_SESSIONS_LIST@ != RPC_TOOLS_MANAGEMENT@,
        RPC_SESSIONS_LIST@ != RPC_TOOLS_SAVE_DRAFT@,
        RPC_SESSIONS_LIST@ != RPC_TOOLS_REGISTER@,
        RPC_SESSIONS_LIST@ != RPC_TOOLS_DELETE_VERSION@,
        RPC_SESSIONS_LIST@ != RPC_TOOLS_DELETE_TOOL@,
        RPC_SESSIONS_LIST@ != RPC_TOOLS_RESULT@,
        RPC_SESSIONS_GET@ != RPC_TOOLS_LIST@,
        RPC_SESSIONS_GET@ != RPC_TOOLS_MANAGEMENT@,
        RPC_SESSIONS_GET@ != RPC_TOOLS_SAVE_DRAFT@,
        RPC_SESSIONS_GET@ != RPC_TOOLS_REGISTER@,
        RPC_SESSIONS_GET@ != RPC_TOOLS_DELETE_VERSION@,
        RPC_SESSIONS_GET@ != RPC_TOOLS_DELETE_TOOL@,
        RPC_SESSIONS_GET@ != RPC_TOOLS_RESULT@,
        RPC_TOOLS_LIST@ != RPC_TOOLS_MANAGEMENT@,
        RPC_TOOLS_LIST@ != RPC_TOOLS_SAVE_DRAFT@,
        RPC_TOOLS_LIST@ != RPC_TOOLS_REGISTER@,
        RPC_TOOLS_LIST@ != RPC_TOOLS_DELETE_VERSION@,
        RPC_TOOLS_LIST@ != RPC_TOOLS_DELETE_TOOL@,
        RPC_TOOLS_LIST@ != RPC_TOOLS_RESULT@,
        RPC_TOOLS_MANAGEMENT@ != RPC_TOOLS_SAVE_DRAFT@,
        RPC_TOOLS_MANAGEMENT@ != RPC_TOOLS_REGISTER@,
        RPC_TOOLS_MANAGEMENT@ != RPC_TOOLS_DELETE_VERSION@,
        RPC_TOOLS_MANAGEMENT@ != RPC_TOOLS_DELETE_TOOL@,
        RPC_TOOLS_MANAGEMENT@ != RPC_TOOLS_RESULT@,
        RPC_TOOLS_SAVE_DRAFT@ != RPC_TOOLS_REGISTER@,
        RPC_TOOLS_SAVE_DRAFT@ != RPC_TOOLS_DELETE_VERSION@,
        RPC_TOOLS_SAVE_DRAFT@ != RPC_TOOLS_DELETE_TOOL@,
        RPC_TOOLS_SAVE_DRAFT@ != RPC_TOOLS_RESULT@,
        RPC_TOOLS_REGISTER@ != RPC_TOOLS_DELETE_VERSION@,
        RPC_TOOLS_REGISTER@ != RPC_TOOLS_DELETE_TOOL@,
        RPC_TOOLS_REGISTER@ != RPC_TOOLS_RESULT@,
        RPC_TOOLS_DELETE_VERSION@ != RPC_TOOLS_DELETE_TOOL@,
        RPC_TOOLS_DELETE_VERSION@ != RPC_TOOLS_RESULT@,
        RPC_TOOLS_DELETE_TOOL@ != RPC_TOOLS_RESULT@,
{
    reveal_strlit("health.check");
    reveal_strlit("sessions.list");
    reveal_strlit("sessions.get");
    reveal_strlit("tools.list");
    reveal_strlit("tools.management");
    reveal_strlit("tools.save_draft");
    reveal_strlit("tools.register");
    reveal_strlit("tools.delete_version");
    reveal_strlit("tools.delete_tool");
    reveal_strlit("tools.result");
    assert(RPC_HEALTH_CHECK@.len() != RPC_SESSIONS_LIST@.len());
    assert(RPC_HEALTH_CHECK@[0] != RPC_SESSIONS_GET@[0]);
    assert(RPC_HEALTH_CHECK@.len() != RPC_TOOLS_LIST@.len());
    assert(RPC_HEALTH_CHECK@.len() != RPC_TOOLS_MANAGEMENT@.len());
    assert(RPC_HEALTH_CHECK@.len() != RPC_TOOLS_SAVE_DRAFT@.len());
    assert(RPC_HEALTH_CHECK@.len() != RPC_TOOLS_REGISTER@.len());
    assert(RPC_HEALTH_CHECK@.len() != RPC_TOOLS_DELETE_VERSION@.len());
    assert(RPC_HEALTH_CHECK@.len() != RPC_TOOLS_DELETE_TOOL@.len());
    assert(RPC_HEALTH_CHECK@[0] != RPC_TOOLS_RESULT@[0]);
    assert(RPC_SESSIONS_LIST@.len() != RPC_SESSIONS_GET@.len());
    assert(RPC_SESSIONS_LIST@.len() != RPC_TOOLS_LIST@.len());
    assert(RPC_SESSIONS_LIST@.len() != RPC_TOOLS_MANAGEMENT@.len());
    assert(RPC_SESSIONS_LIST@.len() != RPC_TOOLS_SAVE_DRAFT@.len());
    assert(RPC_SESSIONS_LIST@.len() != RPC_TOOLS_REGISTER@.len());
    assert(RPC_SESSIONS_LIST@.len() != RPC_TOOLS_DELETE_VERSION@.len());
    assert(RPC_SESSIONS_LIST@.len() != RPC_TOOLS_DELETE_TOOL@.len());
    assert(RPC_SESSIONS_LIST@.len() != RPC_TOOLS_RESULT@.len());
    assert(RPC_SESSIONS_GET@.len() != RPC_TOOLS_LIST@.len());
    assert(RPC_SESSIONS_GET@.len() != RPC_TOOLS_MANAGEMENT@.len());
    assert(RPC_SESSIONS_GET@.len() != RPC_TOOLS_SAVE_DRAFT@.len());
    assert(RPC_SESSIONS_GET@.len() != RPC_TOOLS_REGISTER@.len());
    assert(RPC_SESSIONS_GET@.len() != RPC_TOOLS_DELETE_VERSION@.len());
    assert(RPC_SESSIONS_GET@.len() != RPC_TOOLS_DELETE_TOOL@.len());
    assert(RPC_SESSIONS_GET@[0] != RPC_TOOLS_RESULT@[0]);
    assert(RPC_TOOLS_LIST@.len() != RPC_TOOLS_MANAGEMENT@.len());
    assert(RPC_TOOLS_LIST@.len() != RPC_TOOLS_SAVE_DRAFT@.len());
    assert(RPC_TOOLS_LIST@.len() != RPC_TOOLS_REGISTER@.len());
    assert(RPC_TOOLS_LIST@.len() != RPC_TOOLS_DELETE_VERSION@.len());
    assert(RPC_TOOLS_LIST@.len() != RPC_TOOLS_DELETE_TOOL@.len());
    assert(RPC_TOOLS_LIST@.len() != RPC_TOOLS_RESULT@.len());
    assert(RPC_TOOLS_MANAGEMENT@[6] != RPC_TOOLS_SAVE_DRAFT@[6]);
    assert(RPC_TOOLS_MANAGEMENT@.len() != RPC_TOOLS_REGISTER@.len());
    assert(RPC_TOOLS_MANAGEMENT@.len() != RPC_TOOLS_DELETE_VERSION@.len());
    assert(RPC_TOOLS_MANAGEMENT@.len() != RPC_TOOLS_DELETE_TOOL@.len());
    assert(RPC_TOOLS_MANAGEMENT@.len() != RPC_TOOLS_RESULT@.len());
    assert(RPC_TOOLS_SAVE_DRAFT@.len() != RPC_TOOLS_REGISTER@.len());
    assert(RPC_TOOLS_SAVE_DRAFT@.len() != RPC_TOOLS_DELETE_VERSION@.len());
    assert(RPC_TOOLS_SAVE_DRAFT@.len() != RPC_TOOLS_DELETE_TOOL@.len());
    assert(RPC_TOOLS_SAVE_DRAFT@.len() != RPC_TOOLS_RESULT@.len());
    assert(RPC_TOOLS_REGISTER@.len() != RPC_TOOLS_DELETE_VERSION@.len());
    assert(RPC_TOOLS_REGISTER@.len() != RPC_TOOLS_DELETE_TOOL@.len());
    assert(RPC_TOOLS_REGISTER@.len() != RPC_TOOLS_RESULT@.len());
    assert(RPC_TOOLS_DELETE_VERSION@.len() != RPC_TOOLS_DELETE_TOOL@.len());
    assert(RPC_TOOLS_DELETE_VERSION@.len() != RPC_TOOLS_RESULT@.len());
    assert(RPC_TOOLS_DELETE_TOOL@.len() != RPC_TOOLS_RESULT@.len());
}

/// Routes a JSON-RPC request: a request that is not JSON-RPC 2.0, lacks
/// the parameters its method needs or names no session is refused as
/// invalid; an unknown method is refused as not found; any other request
/// becomes the call it names.
pub fn plan_rpc(request: &RpcRequest) -> (r: Result<RpcCall, RpcResponse<Value>>)
    ensures
        request.jsonrpc@ != "2.0"@ ==> (r matches Err(f) && is_invalid_request(f, request.id)),
        request.jsonrpc@ == "2.0"@ && !known_method(request.method@) ==> (r matches Err(f)
            && is_failure(f, request.id, -32601) && f.error.unwrap().message@ == "method not found: "@
            + request.method@),
        request.jsonrpc@ == "2.0"@ && takes_params(request.method@) && request.params is None ==> (
        r matches Err(f) && is_invalid_request(f, request.id)),
        request.jsonrpc@ == "2.0"@ && request.method@ == RPC_SESSIONS_GET@ && session_id_of(
            request.params,
        ).len() == 0 ==> (r matches Err(f) && is_invalid_request(f, request.id)),
        request.jsonrpc@ == "2.0"@ ==> match r {
            Ok(RpcCall::Health) => request.method@ == RPC_HEALTH_CHECK@,
            Ok(RpcCall::SessionsList) => request.method@ == RPC_SESSIONS_LIST@,
            Ok(RpcCall::SessionsGet { id }) => request.method@ == RPC_SESSIONS_GET@ && id@
                == session_id_of(request.params) && id@.len() > 0,
            Ok(RpcCall::ToolsList) => request.method@ == RPC_TOOLS_LIST@,
            Ok(RpcCall::ToolsManagement) => request.method@ == RPC_TOOLS_MANAGEMENT@,
            Ok(RpcCall::SaveDraft { params }) => request.method@ == RPC_TOOLS_SAVE_DRAFT@
                && request.params == Some(params),
            Ok(RpcCall::Register { params }) => request.method@ == RPC_TOOLS_REGISTER@
                && request.params == Some(params),
            Ok(RpcCall::DeleteVersion { params }) => request.method@ == RPC_TOOLS_DELETE_VERSION@
                && request.params == Some(params),
            Ok(RpcCall::DeleteTool { params }) => request.method@ == RPC_TOOLS_DELETE_TOOL@
                && request.params == Some(params),
            Ok(RpcCall::ToolResult { params }) => request.method@ == RPC_TOOLS_RESULT@
                && request.params == Some(params),
            Err(_) => true,
        },
        request.jsonrpc@ == "2.0"@ && known_method(request.method@) && !(takes_params(
            request.method@,
        ) && request.params is None) && !(request.method@ == RPC_SESSIONS_GET@ && session_id_of(
            request.params,
        ).len() == 0) ==> r is Ok,
{
    let id = request.id;
    proof {
        lemma_methods_distinct();
    }
    if !str_eq(request.jsonrpc.as_str(), "2.0") {
        return Err(RpcResponse::failure(id, RpcError::invalid_request()));
    }
    let m = request.method.as_str();
    if str_eq(m, RPC_HEALTH_CHECK) {
        return Ok(RpcCall::Health);
    }
    if str_eq(m, RPC_SESSIONS_LIST) {
        return Ok(RpcCall::SessionsList);
    }
    if str_eq(m, RPC_SESSIONS_GET) {
        let sid = match &request.params {
            Some(p) => match get_str(p, "id") {
                Some(s) => s,
                None => String::new(),
            },
            None => String::new(),
        };
        if sid.as_str().is_empty() {
            return Err(RpcResponse::failure(id, RpcError::invalid_request()));
        }
        return Ok(RpcCall::SessionsGet { id: sid });
    }
    if str_eq(m, RPC_TOOLS_LIST) {
        return Ok(RpcCall::ToolsList);
    }
    if str_eq(m, RPC_TOOLS_MANAGEMENT) {
        return Ok(RpcCall::ToolsManagement);
    }
    let with_params = str_eq(m, RPC_TOOLS_SAVE_DRAFT) || str_eq(m, RPC_TOOLS_REGISTER) || str_eq(
        m,
        RPC_TOOLS_DELETE_VERSION,
    ) || str_eq(m, RPC_TOOLS_DELETE_TOOL) || str_eq(m, RPC_TOOLS_RESULT);
    if !with_params {
        return Err(RpcResponse::failure(id, RpcError::method_not_found(request.method.clone())));
    }
    let params = match &request.params {
        Some(p) => crate::protocol::clone_value(p),
        None => {
            return Err(RpcResponse::failure(id, RpcError::invalid_request()));
        },
    };
    if str_eq(m, RPC_TOOLS_SAVE_DRAFT) {
        Ok(RpcCall::SaveDraft { params })
    } else if str_eq(m, RPC_TOOLS_REGISTER) {
        Ok(RpcCall::Register { params })
    } else if str_eq(m, RPC_TOOLS_DELETE_VERSION) {
        Ok(RpcCall::DeleteVersion { params })
    } else if str_eq(m, RPC_TOOLS_DELETE_TOOL) {
        Ok(RpcCall::DeleteTool { params })
    } else {
        Ok(RpcCall::ToolResult { params })
    }
}

/// The UUID an id parameter holds, or the invalid-request reply when it
/// holds none.
pub fn id_param(request_id: u64, text: &str) -> (r: Result<u128, RpcResponse<Value>>)
    ensures
        match uuid_parse_of(text@) {
            Some(u) => r == Ok::<u128, RpcResponse<Value>>(u),
            None => r matches Err(f) && is_invalid_request(f, request_id),
        },
{
    match parse_uuid(text) {
        Some(u) => Ok(u),
        None => Err(RpcResponse::failure(request_id, RpcError::invalid_request())),
    }
}

/// How an active authored tool is offered to clients: run by the client,
/// approved unless it only reads, and reported by its summary only.
pub fn active_tool_descriptor(name: String, description: String, risk: &str, args_schema: Value) -> (r: ToolDescriptor)
    ensures
        r.name == name,
        r.description == description,
        r.execution == ToolExecutionKind::LocalProxy,
        r.risk == risk_of(risk@),
        r.approval_required == (risk_of(risk@) != ToolRisk::ReadOnly),
        r.output_policy == ToolOutputPolicy::SummaryOnly,
        r.parameters == args_schema,
{
    let risk = risk_from_str(risk);
    ToolDescriptor {
        name,
        description,
        execution: ToolExecutionKind::LocalProxy,
        approval_required: risk != ToolRisk::ReadOnly,
        risk,
        output_policy: ToolOutputPolicy::SummaryOnly,
        parameters: args_schema,
    }
}

pub open spec fn map_sanitized(v: Option<Value>) -> Option<Value> {
    match v {
        Some(x) => Some(sanitized_tool_value_of(x)),
        None => None,
    }
}

fn sanitize_opt(v: &Option<Value>) -> (r: Option<Value>)
    ensures
        r == map_sanitized(*v),
{
    match v {
        Some(x) => Some(sanitized_tool_value(x)),
        None => None,
    }
}

/// The event as it is stored with the turn: tool inputs and outputs cut
/// down to their summary fields, a local tool request shown by its summary
/// and without its script, a stream's id and secret left out; other events
/// as they are.
pub fn sanitize_event_for_persistence(event: &ChatStreamEvent) -> (r: ChatStreamEvent)
    ensures
        match *event {
            ChatStreamEvent::ToolUpdate { id, name, state, input, output, error } => r
                == ChatStreamEvent::ToolUpdate {
                id,
                name,
                state,
                input: map_sanitized(input),
                output: map_sanitized(output),
                error,
            },
            ChatStreamEvent::LocalToolRequest { invocation_id, name, approval_required, summary, .. } => {
                &&& r matches ChatStreamEvent::LocalToolRequest {
                    invocation_id: i2,
                    name: n2,
                    input: in2,
                    approval_required: a2,
                    summary: s2,
                    script: sc2,
                }
                &&& i2 == invocation_id && n2 == name && a2 == approval_required && s2 == summary
                &&& in2 == summary_value(summary@)
                &&& sc2 is None
            },
            ChatStreamEvent::StreamReady { .. } => r matches ChatStreamEvent::StreamReady {
                stream_id,
                stream_secret,
            } && stream_id@.len() == 0 && stream_secret@.len() == 0,
            _ => r == *event,
        },
{
    match event {
        ChatStreamEvent::ToolUpdate { id, name, state, input, output, error } => {
            ChatStreamEvent::ToolUpdate {
                id: id.clone(),
                name: name.clone(),
                state: *state,
                input: sanitize_opt(input),
                output: sanitize_opt(output),
                error: clone_opt_string(error),
            }
        },
        ChatStreamEvent::LocalToolRequest { invocation_id, name, approval_required, summary, .. } => {
            ChatStreamEvent::LocalToolRequest {
                invocation_id: invocation_id.clone(),
                name: name.clone(),
                input: summary_object(summary.clone()),
                approval_required: *approval_required,
                summary: summary.clone(),
                script: None,
            }
        },
        ChatStreamEvent::StreamReady { .. } => {
            ChatStreamEvent::StreamReady { stream_id: String::new(), stream_secret: String::new() }
        },
        ChatStreamEvent::MessageStart { role } => ChatStreamEvent::MessageStart { role: *role },
        ChatStreamEvent::TextDelta { text } => ChatStreamEvent::TextDelta { text: text.clone() },
        ChatStreamEvent::ReasoningDelta { text } => ChatStreamEvent::ReasoningDelta { text: text.clone() },
        ChatStreamEvent::Error { message } => ChatStreamEvent::Error { message: message.clone() },
        ChatStreamEvent::AuthorDone { version_id, name, language, script, args_schema, description } => {
            ChatStreamEvent::AuthorDone {
                version_id: version_id.clone(),
                name: name.clone(),
                language: *language,
                script: script.clone(),
                args_schema: crate::protocol::clone_value(args_schema),
                description: description.clone(),
            }
        },
        ChatStreamEvent::MessageDone => ChatStreamEvent::MessageDone,
    }
}

/// The prompt that asks the model to author a tool: the description, then
/// the expected input and output shapes where they are given (each
/// trimmed), then the instruction to design and verify the tool.
pub open spec fn author_prompt(description: Seq<char>, input: Option<Seq<char>>, output: Option<Seq<char>>) -> Seq<char> {
    let head = "User description:\n"@ + trimmed(description) + "\n"@;
    let with_input = match input {
        Some(i) => if trimmed(i).len() > 0 {
            head + "\nExpected input shape:\n"@ + trimmed(i) + "\n"@
        } else {
            head
        },
        None => head,
    };
    let with_output = match output {
        Some(o) => if trimmed(o).len() > 0 {
            with_input + "\nExpected output shape:\n"@ + trimmed(o) + "\n"@
        } else {
            with_input
        },
        None => with_input,
    };
    with_output + "\nDesign and verify the tool now. Call set_draft, sandbox_run for each test case, then submit_tool."@
}

pub fn build_author_prompt(req: &crate::protocol::AuthorRequest) -> (r: String)
    ensures
        r@ == author_prompt(req.description@, opt_chars(req.input_hint), opt_chars(req.output_hint)),
{
    let mut prompt = "User description:\n".to_owned();
    prompt.append(trim_str(req.description.as_str()).as_str());
    prompt.append("\n");
    if let Some(input) = &req.input_hint {
        let t = trim_str(input.as_str());
        if !t.as_str().is_empty() {
            prompt.append("\nExpected input shape:\n");
            prompt.append(t.as_str());
            prompt.append("\n");
        }
    }
    if let Some(output) = &req.output_hint {
        let t = trim_str(output.as_str());
        if !t.as_str().is_empty() {
            prompt.append("\nExpected output shape:\n");
            prompt.append(t.as_str());
            prompt.append("\n");
        }
    }
    prompt.append(
        "\nDesign and verify the tool now. Call set_draft, sandbox_run for each test case, then submit_tool.",
    );
    prompt
}

/// What the model streams of its answer, as far as the server reads it.
pub enum AssistantChunk {
    Text(String),
    Reasoning(String),
    ReasoningDelta(String),
    ToolCall { id: String, name: String, arguments: Value },
    ToolCallName { id: String, name: String },
    ToolCallDelta { id: String, delta: String },
    Final,
}

/// The stream event for a chunk of the model's answer, if it makes one:
/// non-empty text and reasoning pass on, a tool call shows as being called,
/// and the pieces of a tool call being streamed show as streaming (a piece
/// of its arguments under `delta`).
pub fn assistant_content_to_chat_event(chunk: AssistantChunk) -> (r: Option<ChatStreamEvent>)
    ensures
        match chunk {
            AssistantChunk::Text(t) => if t@.len() > 0 {
                r == Some(ChatStreamEvent::TextDelta { text: t })
            } else {
                r is None
            },
            AssistantChunk::Reasoning(t) | AssistantChunk::ReasoningDelta(t) => if t@.len() > 0 {
                r == Some(ChatStreamEvent::ReasoningDelta { text: t })
            } else {
                r is None
            },
            AssistantChunk::ToolCall { id, name, arguments } => r == Some(
                ChatStreamEvent::ToolUpdate {
                    id,
                    name,
                    state: ToolState::Calling,
                    input: Some(arguments),
                    output: None,
                    error: None,
                },
            ),
            AssistantChunk::ToolCallName { id, name } => r == Some(
                ChatStreamEvent::ToolUpdate {
                    id,
                    name,
                    state: ToolState::Streaming,
                    input: None,
                    output: None,
                    error: None,
                },
            ),
            AssistantChunk::ToolCallDelta { id, delta } => r matches Some(
                ChatStreamEvent::ToolUpdate { id: i2, name, state, input, output, error },
            ) && i2 == id && name@.len() == 0 && state == ToolState::Streaming && input == Some(
                crate::json::json_object_value(seq![("delta"@, json_string_value(delta@))]),
            ) && output is None && error is None,
            AssistantChunk::Final => r is None,
        },
{
    match chunk {
        AssistantChunk::Text(t) => {
            if t.as_str().is_empty() {
                None
            } else {
                Some(ChatStreamEvent::TextDelta { text: t })
            }
        },
        AssistantChunk::Reasoning(t) | AssistantChunk::ReasoningDelta(t) => {
            if t.as_str().is_empty() {
                None
            } else {
                Some(ChatStreamEvent::ReasoningDelta { text: t })
            }
        },
        AssistantChunk::ToolCall { id, name, arguments } => Some(
            ChatStreamEvent::ToolUpdate {
                id,
                name,
                state: ToolState::Calling,
                input: Some(arguments),
                output: None,
                error: None,
            },
        ),
        AssistantChunk::ToolCallName { id, name } => Some(
            ChatStreamEvent::ToolUpdate {
                id,
                name,
                state: ToolState::Streaming,
                input: None,
                output: None,
                error: None,
            },
        ),
        AssistantChunk::ToolCallDelta { id, delta } => {
            let ghost dv = delta@;
            let v = json_string(delta);
            let mut entries: Vec<(String, Value)> = Vec::new();
            entries.push(("delta".to_owned(), v));
            let input = crate::json::json_object(entries);
            proof {
                assert(crate::json::entry_views(entries@) =~= seq![("delta"@, json_string_value(dv))]);
            }
            Some(
                ChatStreamEvent::ToolUpdate {
                    id,
                    name: String::new(),
                    state: ToolState::Streaming,
                    input: Some(input),
                    output: None,
                    error: None,
                },
            )
        },
        AssistantChunk::Final => None,
    }
}

/// The keys that mark the output of one of the client's file tools.
pub open spec fn is_file_tool_output(v: Value) -> bool {
    json_member(v, "content"@) is Some || json_member(v, "files"@) is Some || json_member(v, "matches"@)
        is Some || json_member(v, "overwritten"@) is Some || json_member(v, "replacements"@) is Some
}

/// A tool's output as the client shows it: the output of a file tool cut
/// down to its summary; any other output as it is.
pub open spec fn ui_tool_output(v: Value) -> Value {
    if is_file_tool_output(v) {
        sanitized_output_value("local_file_tool"@, v)
    } else {
        v
    }
}

pub fn sanitize_local_tool_result_for_ui(output: Value) -> (r: Value)
    ensures
        r == ui_tool_output(output),
{
    let is_local_file_tool = json_field(&output, "content").is_some() || json_field(
        &output,
        "files",
    ).is_some() || json_field(&output, "matches").is_some() || json_field(
        &output,
        "overwritten",
    ).is_some() || json_field(&output, "replacements").is_some();
    if is_local_file_tool {
        sanitized_output("local_file_tool", &output)
    } else {
        output
    }
}

/// The stream event for a tool's result: a plain string is the tool's
/// error; any other value is its output, shown as `ui_tool_output` says.
pub fn tool_result_event(id: String, output: Value) -> (r: ChatStreamEvent)
    ensures
        match json_str_of(output) {
            Some(message) => r matches ChatStreamEvent::ToolUpdate {
                id: i2,
                name,
                state,
                input,
                output: o2,
                error,
            } && i2 == id && name@.len() == 0 && state == ToolState::Failed && input is None
                && o2 is None && opt_chars(error) == Some(message),
            None => r matches ChatStreamEvent::ToolUpdate { id: i2, name, state, input, output: o2, error }
                && i2 == id && name@.len() == 0 && state == ToolState::Complete && input is None && o2
                == Some(ui_tool_output(output)) && error is None,
        },
{
    match json_as_str(&output) {
        Some(message) => ChatStreamEvent::ToolUpdate {
            id,
            name: String::new(),
            state: ToolState::Failed,
            input: None,
            output: None,
            error: Some(message),
        },
        None => ChatStreamEvent::ToolUpdate {
            id,
            name: String::new(),
            state: ToolState::Complete,
            input: None,
            output: Some(sanitize_local_tool_result_for_ui(output)),
            error: None,
        },
    }
}

/// A tool result made of several parts: a single part is the result
/// itself; otherwise the parts form a JSON array.
pub fn tool_result_output(values: Vec<Value>) -> (r: Value)
    ensures
        values@.len() == 1 ==> r == values@[0],
        values@.len() != 1 ==> r == json_array_value(values@),
{
    if values.len() == 1 {
        let mut values = values;
        values.remove(0)
    } else {
        json_array(values)
    }
}

/// A text part of a tool result: the JSON it holds, or the text itself as a
/// JSON string when it is not JSON.
pub fn tool_result_text_value(text: String) -> (r: Value)
    ensures
        match json_parse_of(text@) {
            Some(v) => r == v,
            None => r == json_string_value(text@),
        },
{
    match json_parse(text.as_str()) {
        Some(v) => v,
        None => json_string(text),
    }
}

/// What the server needs to announce a call of one of the client's tools:
/// whether the user must approve it, and the summary shown for it.
pub fn local_call_plan(name: &str, input: &Value) -> (r: Result<(bool, String), String>)
    ensures
        match lookup(registry_spec(), name@) {
            None => r matches Err(m) && m@ == "unknown local tool '"@ + name@ + "'"@,
            Some(t) => match t.execution {
                ToolExecution::LocalProxy { approval_required } => r matches Ok((a, s)) && a
                    == approval_required && s@ == stream_summary_text(name@, *input),
                ToolExecution::ServerNative => r matches Err(m) && m@ == "'"@ + name@
                    + "' is not a local proxy tool"@,
            },
        },
{
    match spec(name) {
        None => {
            let mut m = "unknown local tool '".to_owned();
            m.append(name);
            m.append("'");
            Err(m)
        },
        Some(t) => match t.execution {
            ToolExecution::LocalProxy { approval_required } => {
                Ok((approval_required, stream_summary(name, input)))
            },
            ToolExecution::ServerNative => {
                let mut m = "'".to_owned();
                m.append(name);
                m.append("' is not a local proxy tool");
                Err(m)
            },
        },
    }
}

/// The summary shown for a call of an authored tool.
pub fn tier2_summary(name: &str) -> (r: String)
    ensures
        r@ == "Run "@ + name@,
{
    let mut s = "Run ".to_owned();
    s.append(name);
    s
}

/// The JSON object `{key: text}`.
pub open spec fn one_str_object(key: Seq<char>, text: Seq<char>) -> Value {
    json_object_value(seq![(key, json_string_value(text))])
}

fn str_object(key: &str, text: &str) -> (r: Value)
    ensures
        r == one_str_object(key@, text@),
{
    let mut e: Vec<(String, Value)> = Vec::new();
    e.push((key.to_owned(), json_str(text)));
    let r = json_object(e);
    assert(entry_views(e@) =~= seq![(key@, json_string_value(text@))]);
    r
}

/// The output of the sample tool call that completes.
pub open spec fn debug_config_output() -> Value {
    json_object_value(seq![
        ("loaded"@, json_bool_value(true)),
        ("keys"@, json_array_value(seq![json_string_value("DEEPSEEK_API_KEY"@)])),
    ])
}

/// The input of the sample config tool.
pub open spec fn path_input() -> Value {
    one_str_object("path"@, "apps/server/.env"@)
}

pub open spec fn debug_reasoning() -> Seq<char> {
    "I need to inspect a small input, call one tool, and handle a failure.\n"@
}

pub open spec fn debug_text_one() -> Seq<char> {
    "The config tool completed, but the remote status check failed. "@
}

pub open spec fn debug_text_two() -> Seq<char> {
    "This verifies text, reasoning, tool updates, and non-terminal errors."@
}

pub open spec fn debug_error() -> Seq<char> {
    "Remote status is unavailable; continuing with local context."@
}

/// Whether `e` is the tool update of the sample stream with these fields.
pub open spec fn is_debug_update(
    e: ChatStreamEvent,
    id: Seq<char>,
    name: Seq<char>,
    state: ToolState,
    input: Value,
    output: Option<Value>,
    error: Option<Seq<char>>,
) -> bool {
    &&& e matches ChatStreamEvent::ToolUpdate { id: i, name: n, state: s, input: inp, output: out, error: err }
    &&& i@ == id
    &&& n@ == name
    &&& s == state
    &&& inp == Some(input)
    &&& out == output
    &&& opt_chars(err) == error
}

/// The fixed sample turn that exercises every kind of stream event: text,
/// reasoning, tool updates (one completing, one failing) and an error that
/// does not end the turn.
pub fn debug_events() -> (r: Vec<ChatStreamEvent>)
    ensures
        r@.len() == 10,
        (r@[0] matches ChatStreamEvent::MessageStart { role } && role == UiRole::Assistant),
        (r@[1] matches ChatStreamEvent::ReasoningDelta { text } && text@ == debug_reasoning()),
        is_debug_update(r@[2], "tool-1"@, "read_config"@, ToolState::Streaming, path_input(), None, None),
        is_debug_update(r@[3], "tool-1"@, "read_config"@, ToolState::Calling, path_input(), None, None),
        is_debug_update(
            r@[4],
            "tool-1"@,
            "read_config"@,
            ToolState::Complete,
            path_input(),
            Some(debug_config_output()),
            None,
        ),
        is_debug_update(
            r@[5],
            "tool-2"@,
            "fetch_remote"@,
            ToolState::Failed,
            one_str_object("url"@, "https://example.invalid/status"@),
            None,
            Some("DNS lookup failed"@),
        ),
        (r@[6] matches ChatStreamEvent::TextDelta { text } && text@ == debug_text_one()),
        (r@[7] matches ChatStreamEvent::Error { message } && message@ == debug_error()),
        (r@[8] matches ChatStreamEvent::TextDelta { text } && text@ == debug_text_two()),
        (r@[9] is MessageDone),
{
    let mut v: Vec<ChatStreamEvent> = Vec::new();
    v.push(ChatStreamEvent::MessageStart { role: UiRole::Assistant });
    v.push(ChatStreamEvent::ReasoningDelta {
        text: "I need to inspect a small input, call one tool, and handle a failure.\n".to_owned(),
    });
    v.push(ChatStreamEvent::ToolUpdate {
        id: "tool-1".to_owned(),
        name: "read_config".to_owned(),
        state: ToolState::Streaming,
        input: Some(str_object("path", "apps/server/.env")),
        output: None,
        error: None,
    });
    v.push(ChatStreamEvent::ToolUpdate {
        id: "tool-1".to_owned(),
        name: "read_config".to_owned(),
        state: ToolState::Calling,
        input: Some(str_object("path", "apps/server/.env")),
        output: None,
        error: None,
    });
    let mut keys: Vec<Value> = Vec::new();
    keys.push(json_str("DEEPSEEK_API_KEY"));
    let mut out: Vec<(String, Value)> = Vec::new();
    out.push(("loaded".to_owned(), json_bool(true)));
    out.push(("keys".to_owned(), json_array(keys)));
    let output = json_object(out);
    assert(entry_views(out@) =~= seq![
        ("loaded"@, json_bool_value(true)),
        ("keys"@, json_array_value(seq![json_string_value("DEEPSEEK_API_KEY"@)])),
    ]);
    v.push(ChatStreamEvent::ToolUpdate {
        id: "tool-1".to_owned(),
        name: "read_config".to_owned(),
        state: ToolState::Complete,
        input: Some(str_object("path", "apps/server/.env")),
        output: Some(output),
        error: None,
    });
    v.push(ChatStreamEvent::ToolUpdate {
        id: "tool-2".to_owned(),
        name: "fetch_remote".to_owned(),
        state: ToolState::Failed,
        input: Some(str_object("url", "https://example.invalid/status")),
        output: None,
        error: Some("DNS lookup failed".to_owned()),
    });
    v.push(ChatStreamEvent::TextDelta {
        text: "The config tool completed, but the remote status check failed. ".to_owned(),
    });
    v.push(ChatStreamEvent::Error {
        message: "Remote status is unavailable; continuing with local context.".to_owned(),
    });
    v.push(ChatStreamEvent::TextDelta {
        text: "This verifies text, reasoning, tool updates, and non-terminal errors.".to_owned(),
    });
    v.push(ChatStreamEvent::MessageDone);
    v
}

/// How the server answers a chat request.
pub enum ChatStart {
    /// The fixed sample stream.
    Debug,
    /// A turn of the agent; the session gets the start of the prompt as its
    /// title.
    Agent { title: String },
}

/// The message that asks for the sample stream.
pub const DEBUG_TOOL_STREAM_MESSAGE: &'static str = "debug:tool-stream";

/// Checks a chat request: an empty message is refused; the sample message
/// gets the sample stream; any other starts a turn of the agent.
pub fn plan_chat(message: &str) -> (r: Result<ChatStart, String>)
    ensures
        message@.len() == 0 ==> (r matches Err(e) && e@ == "message must not be empty"@),
        message@.len() > 0 && message@ == DEBUG_TOOL_STREAM_MESSAGE@ ==> r matches Ok(ChatStart::Debug),
        message@.len() > 0 && message@ != DEBUG_TOOL_STREAM_MESSAGE@ ==> (r matches Ok(
            ChatStart::Agent { title },
        ) && title@ == crate::session::title_of(message@)),
{
    if message.is_empty() {
        return Err("message must not be empty".to_owned());
    }
    if str_eq(message, DEBUG_TOOL_STREAM_MESSAGE) {
        return Ok(ChatStart::Debug);
    }
    let chars = crate::text::to_chars(message);
    let mut kept: Vec<char> = Vec::new();
    let mut i: usize = 0;
    while i < chars.len() && i < crate::session::TITLE_CHARS
        invariant
            chars@ == message@,
            i <= chars@.len(),
            i <= crate::session::TITLE_CHARS,
            kept@ == message@.take(i as int),
        decreases chars.len() - i,
    {
        kept.push(chars[i]);
        i = i + 1;
        assert(kept@ =~= message@.take(i as int));
    }
    assert(message@.len() <= crate::session::TITLE_CHARS ==> message@.take(i as int) =~= message@);
    Ok(ChatStart::Agent { title: crate::text::from_chars(&kept) })
}

/// Checks a request to author a tool: it needs a description that is not
/// blank.
pub fn check_author_request(description: &str) -> (r: Result<(), String>)
    ensures
        is_blank(description@) ==> (r matches Err(e) && e@ == "description must not be empty"@),
        !is_blank(description@) ==> r is Ok,
{
    if blank(description) {
        return Err("description must not be empty".to_owned());
    }
    Ok(())
}

/// Whether a stored history message is the assistant's (any other role is
/// taken as the user's).
pub fn is_assistant_role(role: &str) -> (r: bool)
    ensures
        r == (role@ == "assistant"@),
{
    str_eq(role, "assistant")
}

/// The two events every stream starts with: the stream's id and secret,
/// then the start of the assistant's message.
pub fn stream_opening(stream_id: String, stream_secret: String) -> (r: Vec<ChatStreamEvent>)
    ensures
        r@.len() == 2,
        r@[0] == (ChatStreamEvent::StreamReady { stream_id, stream_secret }),
        r@[1] == (ChatStreamEvent::MessageStart { role: UiRole::Assistant }),
{
    let mut v: Vec<ChatStreamEvent> = Vec::new();
    v.push(ChatStreamEvent::StreamReady { stream_id, stream_secret });
    v.push(ChatStreamEvent::MessageStart { role: UiRole::Assistant });
    v
}

/// What the tool author left behind once the model stopped: the version it
/// submitted, with the name and description it gave.
pub struct AuthorSubmission {
    pub version_id: String,
    pub language: crate::protocol::ToolScriptLanguage,
    pub script: String,
    pub args_schema: Value,
    pub name: Option<String>,
    pub description: Option<String>,
}

/// The last event of an authoring stream: the authored tool when a version
/// was submitted with its name and description, else the failure.
pub fn author_outcome(submitted: Option<AuthorSubmission>) -> (r: ChatStreamEvent)
    ensures
        match submitted {
            Some(AuthorSubmission { version_id, language, script, args_schema, name: Some(n), description: Some(d) }) => r
                == (ChatStreamEvent::AuthorDone {
                version_id,
                name: n,
                language,
                script,
                args_schema,
                description: d,
            }),
            _ => r matches ChatStreamEvent::Error { message } && message@
                == "Tool author did not converge. Refine the description and try again."@,
        },
{
    match submitted {
        Some(AuthorSubmission { version_id, language, script, args_schema, name: Some(name), description: Some(description) }) => {
            ChatStreamEvent::AuthorDone { version_id, name, language, script, args_schema, description }
        },
        _ => ChatStreamEvent::Error {
            message: "Tool author did not converge. Refine the description and try again.".to_owned(),
        },
    }
}

/// What an event does to the stored message: as to the streamed one, but
/// with a tool's input and output cut down as `map_sanitized` says.
pub open spec fn stored_effect(parts: Seq<crate::protocol::PartView>, e: ChatStreamEvent) -> Seq<crate::protocol::PartView> {
    match e {
        ChatStreamEvent::ToolUpdate { id, name, state, input, output, error } => crate::protocol::upsert_tool(
            parts,
            id@,
            name@,
            state,
            map_sanitized(input),
            map_sanitized(output),
            opt_chars(error),
            false,
        ),
        _ => event_effect(parts, e),
    }
}

/// The assistant's message of a turn as it is stored: the stream's events
/// folded in as they are kept in history, until the end of the message.
pub struct TurnRecorder {
    pub message: UiMessage,
    pub done: bool,
}

impl TurnRecorder {
    pub fn new() -> (r: Self)
        ensures
            r.message@ == (UiRole::Assistant, Seq::<crate::protocol::PartView>::empty()),
            !r.done,
    {
        TurnRecorder { message: UiMessage::assistant(), done: false }
    }

    /// Takes in one event of the stream; `true` once the message is done
    /// and is to be stored.
    pub fn record(&mut self, event: &ChatStreamEvent) -> (stored: bool)
        ensures
            old(self).done ==> *final(self) == *old(self) && !stored,
            !old(self).done && event is MessageDone ==> final(self).message == old(self).message
                && final(self).done && stored,
            !old(self).done && !(event is MessageDone) ==> {
                &&& final(self).message@ == (
                    old(self).message@.0,
                    stored_effect(old(self).message@.1, *event),
                )
                &&& !final(self).done
                &&& !stored
            },
    {
        if self.done {
            return false;
        }
        if let ChatStreamEvent::MessageDone = event {
            self.done = true;
            return true;
        }
        let kept = sanitize_event_for_persistence(event);
        self.message.apply_stream_event(&kept);
        false
    }
}

/// An active authored tool as the store lists it: its name and the
/// description, risk code and argument schema of its active version.
pub struct ActiveTool {
    pub name: String,
    pub description: String,
    pub risk: String,
    pub args_schema: Value,
}

/// The tools the server offers: the built-in ones, then each active
/// authored tool as `active_tool_descriptor` describes it.
pub fn served_tools(active: Vec<ActiveTool>) -> (r: Vec<ToolDescriptor>)
    ensures
        r@.len() == registry_spec().len() + active@.len(),
        forall|i: int|
            0 <= i < registry_spec().len() ==> crate::tools::describes(#[trigger] r@[i], registry_spec()[i]),
        forall|j: int|
            0 <= j < active@.len() ==> {
                let d = #[trigger] r@[registry_spec().len() + j];
                let t = active@[j];
                &&& d.name == t.name
                &&& d.description == t.description
                &&& d.execution == ToolExecutionKind::LocalProxy
                &&& d.risk == risk_of(t.risk@)
                &&& d.approval_required == (risk_of(t.risk@) != ToolRisk::ReadOnly)
                &&& d.output_policy == ToolOutputPolicy::SummaryOnly
                &&& d.parameters == t.args_schema
            },
{
    let mut out = crate::tools::descriptors();
    let n = out.len();
    let ghost start = out@;
    let mut rest = active;
    let mut reversed: Vec<ActiveTool> = Vec::new();
    let ghost all = rest@;
    while rest.len() > 0
        invariant
            rest@ + reversed@.reverse() == all,
        decreases rest.len(),
    {
        let ghost r0 = rest@;
        let ghost v0 = reversed@;
        let t = rest.pop().unwrap();
        reversed.push(t);
        assert(r0 =~= rest@.push(t));
        assert(reversed@.reverse() =~= seq![t] + v0.reverse());
        assert(rest@ + reversed@.reverse() =~= r0 + v0.reverse());
    }
    assert(reversed@.reverse() =~= all);
    let ghost k: int = 0;
    while reversed.len() > 0
        invariant
            n == registry_spec().len(),
            out@.len() == n + (all.len() - reversed@.len()),
            reversed@.reverse() == all.skip(all.len() - reversed@.len()),
            reversed@.len() <= all.len(),
            forall|i: int| 0 <= i < n ==> out@[i] == start[i],
            forall|i: int| 0 <= i < n ==> crate::tools::describes(#[trigger] start[i], registry_spec()[i]),
            start.len() == n,
            forall|j: int|
                0 <= j < all.len() - reversed@.len() ==> {
                    let d = #[trigger] out@[n + j];
                    let t = all[j];
                    &&& d.name == t.name
                    &&& d.description == t.description
                    &&& d.execution == ToolExecutionKind::LocalProxy
                    &&& d.risk == risk_of(t.risk@)
                    &&& d.approval_required == (risk_of(t.risk@) != ToolRisk::ReadOnly)
                    &&& d.output_policy == ToolOutputPolicy::SummaryOnly
                    &&& d.parameters == t.args_schema
                },
        decreases reversed.len(),
    {
        let ghost before = reversed@;
        let t = reversed.pop().unwrap();
        assert(before =~= reversed@.push(t));
        assert(before.reverse()[0] == t);
        assert(all[all.len() - before.len()] == t);
        assert(reversed@.reverse() =~= before.reverse().drop_first());
        assert(all.skip(all.len() - reversed@.len()) =~= all.skip(all.len() - before.len()).drop_first());
        let d = active_tool_descriptor(t.name, t.description, t.risk.as_str(), t.args_schema);
        out.push(d);
    }
    assert forall|i: int| 0 <= i < n implies crate::tools::describes(#[trigger] out@[i], registry_spec()[i]) by {
        assert(out@[i] == start[i]);
    }
    out
}

/// The reply to a request whose work succeeded with a result or failed
/// with an error.
pub fn reply(id: u64, outcome: Result<Value, String>) -> (r: RpcResponse<Value>)
    ensures
        r.jsonrpc@ == "2.0"@,
        r.id == id,
        match outcome {
            Ok(v) => {
                &&& r.result == Some(v)
                &&& r.error is None
            },
            Err(e) => {
                &&& r.result is None
                &&& r.error matches Some(err)
                &&& err.code == -32603
                &&& err.message@ == e@
            },
        },
{
    match outcome {
        Ok(v) => RpcResponse::success(id, v),
        Err(e) => RpcResponse::failure(id, RpcError::internal_error(e)),
    }
}

} // verus!
