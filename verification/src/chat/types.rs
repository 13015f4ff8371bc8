//! Requests, responses and stream chunks of a chat completion.

use vstd::prelude::*;

use crate::json::{clone_json, Json, JsonV};

verus! {

/// The author of a message.
#[derive(Debug, Clone, Copy, PartialEq, Eq, Hash, Structural)]
pub enum Role {
    System,
    User,
    Assistant,
    Tool,
}

/// Why the remote stopped generating.
#[derive(Debug, Clone, Copy, PartialEq, Eq, Hash, Structural)]
pub enum FinishReason {
    Stop,
    Length,
    ContentFilter,
    ToolCalls,
}

/// The name and arguments (JSON text) of a function the model called.
#[derive(Debug, Clone, PartialEq, Eq)]
pub struct FunctionCallResult {
    pub name: String,
    pub arguments: String,
}

pub struct FunctionCallResultV {
    pub name: Seq<char>,
    pub arguments: Seq<char>,
}

impl DeepView for FunctionCallResult {
    type V = FunctionCallResultV;

    open spec fn deep_view(&self) -> FunctionCallResultV {
        FunctionCallResultV { name: self.name@, arguments: self.arguments@ }
    }
}

/// A complete tool call.
#[derive(Debug, Clone, PartialEq, Eq)]
pub struct ToolCall {
    pub id: String,
    pub function: FunctionCallResult,
}

pub struct ToolCallV {
    pub id: Seq<char>,
    pub function: FunctionCallResultV,
}

impl DeepView for ToolCall {
    type V = ToolCallV;

    open spec fn deep_view(&self) -> ToolCallV {
        ToolCallV { id: self.id@, function: self.function.deep_view() }
    }
}

/// One message of a conversation.
#[derive(Debug, Clone, PartialEq)]
pub struct ChatMessage {
    pub role: Role,
    /// The text; for a `tool` message, the tool's output.
    pub content: Option<String>,
    /// The tool calls an assistant made in an earlier turn.
    pub tool_calls: Option<Vec<ToolCall>>,
    /// For a `tool` message: the id of the call it answers.
    pub tool_call_id: Option<String>,
    /// For a `tool` message: the function name.
    pub name: Option<String>,
}

pub struct ChatMessageV {
    pub role: Role,
    pub content: Option<Seq<char>>,
    pub tool_calls: Option<Seq<ToolCallV>>,
    pub tool_call_id: Option<Seq<char>>,
    pub name: Option<Seq<char>>,
}

impl DeepView for ChatMessage {
    type V = ChatMessageV;

    open spec fn deep_view(&self) -> ChatMessageV {
        ChatMessageV {
            role: self.role,
            content: self.content.deep_view(),
            tool_calls: self.tool_calls.deep_view(),
            tool_call_id: self.tool_call_id.deep_view(),
            name: self.name.deep_view(),
        }
    }
}

impl ChatMessage {
    pub fn user(text: &str) -> (r: Self)
        ensures
            r.deep_view() == (ChatMessageV {
                role: Role::User,
                content: Some(text@),
                tool_calls: None,
                tool_call_id: None,
                name: None,
            }),
    {
        ChatMessage {
            role: Role::User,
            content: Some(text.to_string()),
            tool_calls: None,
            tool_call_id: None,
            name: None,
        }
    }

    pub fn system(text: &str) -> (r: Self)
        ensures
            r.deep_view() == (ChatMessageV {
                role: Role::System,
                content: Some(text@),
                tool_calls: None,
                tool_call_id: None,
                name: None,
            }),
    {
        ChatMessage {
            role: Role::System,
            content: Some(text.to_string()),
            tool_calls: None,
            tool_call_id: None,
            name: None,
        }
    }

    /// A plain-text assistant message (no tool calls).
    pub fn assistant(text: &str) -> (r: Self)
        ensures
            r.deep_view() == (ChatMessageV {
                role: Role::Assistant,
                content: Some(text@),
                tool_calls: None,
                tool_call_id: None,
                name: None,
            }),
    {
        ChatMessage {
            role: Role::Assistant,
            content: Some(text.to_string()),
            tool_calls: None,
            tool_call_id: None,
            name: None,
        }
    }

    /// A `tool` message: the output of the call `tool_call_id`.
    pub fn tool(tool_call_id: &str, content: &str) -> (r: Self)
        ensures
            r.deep_view() == (ChatMessageV {
                role: Role::Tool,
                content: Some(content@),
                tool_calls: None,
                tool_call_id: Some(tool_call_id@),
                name: None,
            }),
    {
        ChatMessage {
            role: Role::Tool,
            content: Some(content.to_string()),
            tool_calls: None,
            tool_call_id: Some(tool_call_id.to_string()),
            name: None,
        }
    }

    /// A `tool` message that also names the function.
    pub fn tool_with_name(tool_call_id: &str, name: &str, content: &str) -> (r: Self)
        ensures
            r.deep_view() == (ChatMessageV {
                role: Role::Tool,
                content: Some(content@),
                tool_calls: None,
                tool_call_id: Some(tool_call_id@),
                name: Some(name@),
            }),
    {
        ChatMessage {
            role: Role::Tool,
            content: Some(content.to_string()),
            tool_calls: None,
            tool_call_id: Some(tool_call_id.to_string()),
            name: Some(name.to_string()),
        }
    }
}

/// A function the model may call: its name, description and JSON Schema.
#[derive(Debug, PartialEq)]
pub struct FunctionDefinition {
    pub name: String,
    pub description: Option<String>,
    pub parameters: Json,
}

pub struct FunctionDefinitionV {
    pub name: Seq<char>,
    pub description: Option<Seq<char>>,
    pub parameters: JsonV,
}

impl DeepView for FunctionDefinition {
    type V = FunctionDefinitionV;

    open spec fn deep_view(&self) -> FunctionDefinitionV {
        FunctionDefinitionV {
            name: self.name@,
            description: self.description.deep_view(),
            parameters: self.parameters.deep_view(),
        }
    }
}

impl FunctionDefinition {
    pub fn new(name: &str, parameters: Json) -> (r: Self)
        ensures
            r.deep_view() == (FunctionDefinitionV {
                name: name@,
                description: None,
                parameters: parameters.deep_view(),
            }),
    {
        FunctionDefinition { name: name.to_string(), description: None, parameters }
    }

    pub fn with_description(name: &str, description: &str, parameters: Json) -> (r: Self)
        ensures
            r.deep_view() == (FunctionDefinitionV {
                name: name@,
                description: Some(description@),
                parameters: parameters.deep_view(),
            }),
    {
        FunctionDefinition {
            name: name.to_string(),
            description: Some(description.to_string()),
            parameters,
        }
    }
}

/// A tool offered to the model (`type: function`).
#[derive(Debug, PartialEq)]
pub struct ToolDefinition {
    pub function: FunctionDefinition,
}

impl DeepView for ToolDefinition {
    type V = FunctionDefinitionV;

    open spec fn deep_view(&self) -> FunctionDefinitionV {
        self.function.deep_view()
    }
}

impl ToolDefinition {
    pub fn function(name: &str, parameters: Json) -> (r: Self)
        ensures
            r.deep_view() == (FunctionDefinitionV {
                name: name@,
                description: None,
                parameters: parameters.deep_view(),
            }),
    {
        ToolDefinition { function: FunctionDefinition::new(name, parameters) }
    }

    pub fn function_with_description(name: &str, description: &str, parameters: Json) -> (r:
        Self)
        ensures
            r.deep_view() == (FunctionDefinitionV {
                name: name@,
                description: Some(description@),
                parameters: parameters.deep_view(),
            }),
    {
        ToolDefinition { function: FunctionDefinition::with_description(name, description, parameters) }
    }
}

/// Whether and which tool the model must call.
#[derive(Debug, Clone, PartialEq)]
pub enum ToolChoice {
    /// No tool (the `none` choice).
    Disabled,
    Auto,
    Required,
    /// This function.
    Tool(String),
}

pub enum ToolChoiceV {
    Disabled,
    Auto,
    Required,
    Tool(Seq<char>),
}

impl DeepView for ToolChoice {
    type V = ToolChoiceV;

    open spec fn deep_view(&self) -> ToolChoiceV {
        match self {
            ToolChoice::Disabled => ToolChoiceV::Disabled,
            ToolChoice::Auto => ToolChoiceV::Auto,
            ToolChoice::Required => ToolChoiceV::Required,
            ToolChoice::Tool(s) => ToolChoiceV::Tool(s@),
        }
    }
}

/// One completion request (the stream and non-stream calls share it).
#[derive(Debug, PartialEq)]
pub struct ChatRequest {
    pub messages: Vec<ChatMessage>,
    pub tools: Option<Vec<ToolDefinition>>,
    pub tool_choice: Option<ToolChoice>,
    /// The sampling temperature as JSON number text; `None` takes `0.2`.
    pub temperature: Option<String>,
    pub max_tokens: Option<u32>,
    /// Nucleus sampling as JSON number text.
    pub top_p: Option<String>,
}

pub struct ChatRequestV {
    pub messages: Seq<ChatMessageV>,
    pub tools: Option<Seq<FunctionDefinitionV>>,
    pub tool_choice: Option<ToolChoiceV>,
    pub temperature: Option<Seq<char>>,
    pub max_tokens: Option<u32>,
    pub top_p: Option<Seq<char>>,
}

impl DeepView for ChatRequest {
    type V = ChatRequestV;

    open spec fn deep_view(&self) -> ChatRequestV {
        ChatRequestV {
            messages: self.messages.deep_view(),
            tools: self.tools.deep_view(),
            tool_choice: self.tool_choice.deep_view(),
            temperature: self.temperature.deep_view(),
            max_tokens: self.max_tokens,
            top_p: self.top_p.deep_view(),
        }
    }
}

impl ChatRequest {
    /// One `user` message; every other field unset.
    pub fn single_user(text: &str) -> (r: Self)
        ensures
            r.deep_view() == (ChatRequestV {
                messages: seq![ChatMessage::user_view(text@)],
                tools: None,
                tool_choice: None,
                temperature: None,
                max_tokens: None,
                top_p: None,
            }),
    {
        let m = ChatMessage::user(text);
        let r = ChatRequest {
            messages: vec![m],
            tools: None,
            tool_choice: None,
            temperature: None,
            max_tokens: None,
            top_p: None,
        };
        proof {
            assert(r.messages.deep_view() =~= seq![ChatMessage::user_view(text@)]);
        }
        r
    }
}

impl ChatMessage {
    pub open spec fn user_view(text: Seq<char>) -> ChatMessageV {
        ChatMessageV { role: Role::User, content: Some(text), tool_calls: None, tool_call_id: None, name: None }
    }
}

impl Default for ChatRequest {
    fn default() -> (r: Self)
        ensures
            r.deep_view().messages.len() == 0,
            r.tools is None,
            r.tool_choice is None,
            r.temperature is None,
            r.max_tokens is None,
            r.top_p is None,
    {
        ChatRequest {
            messages: Vec::new(),
            tools: None,
            tool_choice: None,
            temperature: None,
            max_tokens: None,
            top_p: None,
        }
    }
}

/// The result of a non-stream completion.
#[derive(Debug, Clone, PartialEq)]
pub struct ChatResponse {
    pub content: Option<String>,
    pub tool_calls: Option<Vec<ToolCall>>,
    pub finish_reason: Option<FinishReason>,
}

pub struct ChatResponseV {
    pub content: Option<Seq<char>>,
    pub tool_calls: Option<Seq<ToolCallV>>,
    pub finish_reason: Option<FinishReason>,
}

impl DeepView for ChatResponse {
    type V = ChatResponseV;

    open spec fn deep_view(&self) -> ChatResponseV {
        ChatResponseV {
            content: self.content.deep_view(),
            tool_calls: self.tool_calls.deep_view(),
            finish_reason: self.finish_reason,
        }
    }
}

/// A piece of a streamed tool call; pieces with the same `index` belong together.
#[derive(Debug, Clone, PartialEq, Eq)]
pub struct ToolCallDelta {
    pub index: u32,
    pub id: Option<String>,
    pub function_name: Option<String>,
    pub function_arguments: Option<String>,
}

pub struct ToolCallDeltaV {
    pub index: u32,
    pub id: Option<Seq<char>>,
    pub function_name: Option<Seq<char>>,
    pub function_arguments: Option<Seq<char>>,
}

impl DeepView for ToolCallDelta {
    type V = ToolCallDeltaV;

    open spec fn deep_view(&self) -> ToolCallDeltaV {
        ToolCallDeltaV {
            index: self.index,
            id: self.id.deep_view(),
            function_name: self.function_name.deep_view(),
            function_arguments: self.function_arguments.deep_view(),
        }
    }
}

/// One piece of a streamed completion: text, tool-call pieces, and the
/// reason the stream ends, each when present.
#[derive(Debug, Clone, PartialEq, Eq)]
pub struct ChatChunk {
    pub delta: Option<String>,
    pub tool_call_deltas: Option<Vec<ToolCallDelta>>,
    pub finish_reason: Option<FinishReason>,
}

pub struct ChatChunkV {
    pub delta: Option<Seq<char>>,
    pub tool_call_deltas: Option<Seq<ToolCallDeltaV>>,
    pub finish_reason: Option<FinishReason>,
}

impl DeepView for ChatChunk {
    type V = ChatChunkV;

    open spec fn deep_view(&self) -> ChatChunkV {
        ChatChunkV {
            delta: self.delta.deep_view(),
            tool_call_deltas: self.tool_call_deltas.deep_view(),
            finish_reason: self.finish_reason,
        }
    }
}

impl ChatChunk {
    /// Text only.
    pub fn delta(text: &str) -> (r: Self)
        ensures
            r.deep_view() == (ChatChunkV {
                delta: Some(text@),
                tool_call_deltas: None,
                finish_reason: None,
            }),
    {
        ChatChunk { delta: Some(text.to_string()), tool_call_deltas: None, finish_reason: None }
    }

    /// The end reason only.
    pub fn finish(reason: FinishReason) -> (r: Self)
        ensures
            r.deep_view() == (ChatChunkV {
                delta: None,
                tool_call_deltas: None,
                finish_reason: Some(reason),
            }),
    {
        ChatChunk { delta: None, tool_call_deltas: None, finish_reason: Some(reason) }
    }

    /// Tool-call pieces only.
    pub fn tool_deltas(deltas: Vec<ToolCallDelta>) -> (r: Self)
        ensures
            r.deep_view() == (ChatChunkV {
                delta: None,
                tool_call_deltas: Some(deltas.deep_view()),
                finish_reason: None,
            }),
    {
        ChatChunk { delta: None, tool_call_deltas: Some(deltas), finish_reason: None }
    }
}

/// A copy of an optional string.
pub fn clone_opt_string(s: &Option<String>) -> (r: Option<String>)
    ensures
        r.deep_view() == s.deep_view(),
{
    match s {
        Some(x) => Some(x.clone()),
        None => None,
    }
}

/// A copy of a function definition.
pub fn clone_function_definition(f: &FunctionDefinition) -> (r: FunctionDefinition)
    ensures
        r.deep_view() == f.deep_view(),
{
    FunctionDefinition {
        name: f.name.clone(),
        description: clone_opt_string(&f.description),
        parameters: clone_json(&f.parameters),
    }
}

} // verus!
