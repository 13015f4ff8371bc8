//! Anthropic Messages (`POST {base_url}/messages`): the request body (system
//! text at top level, tool results as `user` blocks), the reading of the
//! answer's content blocks and of the streamed events.

use vstd::prelude::*;

use crate::chat::openai_compat::{count_text, sent_tools};
use crate::chat::types::{
    ChatChunk, ChatChunkV, ChatMessage, ChatMessageV, ChatRequest, ChatRequestV, ChatResponse,
    ChatResponseV, FinishReason, FunctionCallResult, FunctionCallResultV, FunctionDefinitionV, Role,
    ToolCall, ToolCallDelta, ToolCallDeltaV, ToolCallV, ToolChoice, ToolChoiceV, ToolDefinition,
};
use crate::error::{result_view, Error, ErrorV};
use crate::json::{
    array, as_array, lemma_member_after, member_spec, as_str, as_u64, aview, clone_json, field, field_opt, jarr, jget, jstr, jtext, ju64, oget,
    mview, object, opt_member, opt_str_member, push_item, push_member, push_opt_member,
    push_opt_str_member, read_json, serde_json_read, serde_json_write, write_json, Json, JsonV,
};
use crate::sse::{SseEvent, SseEventV};
use crate::text::{
    decimal_text, join_spec, join_strings, join_url, join_url_spec, str_eq, str_trim, trim_spec,
    usize_to_text,
};

verus! {

/// The `anthropic-version` header value.
pub const ANTHROPIC_VERSION: &'static str = "2023-06-01";

/// `max_tokens` when the request sets none.
pub const DEFAULT_MAX_TOKENS: u32 = 4096;

pub open spec fn empty_object() -> JsonV {
    JsonV::Object(Seq::empty())
}

pub open spec fn text_block(t: Seq<char>) -> JsonV {
    JsonV::Object(seq![("type"@, JsonV::Str("text"@)), ("text"@, JsonV::Str(t))])
}

/// The JSON arguments of a call as a document; text that is not JSON gives
/// an empty object.
pub open spec fn tool_input(arguments: Seq<char>) -> JsonV {
    match serde_json_read(arguments) {
        Ok(v) => v,
        Err(_) => empty_object(),
    }
}

pub open spec fn tool_use_block(c: ToolCallV) -> JsonV {
    JsonV::Object(
        seq![
            ("type"@, JsonV::Str("tool_use"@)),
            ("id"@, JsonV::Str(c.id)),
            ("name"@, JsonV::Str(c.function.name)),
            ("input"@, tool_input(c.function.arguments)),
        ],
    )
}

pub open spec fn has_tool_calls(m: ChatMessageV) -> bool {
    match m.tool_calls {
        Some(cs) => cs.len() > 0,
        None => false,
    }
}

/// An assistant message's content: its text (empty when absent) when it has
/// no tool calls; otherwise a non-empty text block followed by one
/// `tool_use` block per call.
pub open spec fn assistant_content_spec(m: ChatMessageV) -> JsonV {
    if !has_tool_calls(m) {
        JsonV::Str(
            match m.content {
                Some(c) => c,
                None => Seq::empty(),
            },
        )
    } else {
        let text_blocks = match m.content {
            Some(t) => if t.len() > 0 {
                seq![text_block(t)]
            } else {
                Seq::empty()
            },
            None => Seq::empty(),
        };
        let blocks = text_blocks + m.tool_calls.unwrap().map_values(|c| tool_use_block(c));
        if blocks.len() == 0 {
            JsonV::Str(Seq::empty())
        } else {
            JsonV::Array(blocks)
        }
    }
}

pub open spec fn api_message(role: Seq<char>, content: JsonV) -> JsonV {
    JsonV::Object(seq![("role"@, JsonV::Str(role)), ("content"@, content)])
}

/// The text of an optional string, empty when absent.
pub open spec fn text_or_empty(o: Option<Seq<char>>) -> Seq<char> {
    match o {
        Some(c) => c,
        None => Seq::empty(),
    }
}

/// A `tool` message in Anthropic form: a `user` message holding one
/// `tool_result` block.
pub open spec fn tool_result_message(id: Seq<char>, output: Seq<char>) -> JsonV {
    api_message(
        "user"@,
        JsonV::Array(
            seq![
                JsonV::Object(
                    seq![
                        ("type"@, JsonV::Str("tool_result"@)),
                        ("tool_use_id"@, JsonV::Str(id)),
                        ("content"@, JsonV::Str(output)),
                    ],
                ),
            ],
        ),
    )
}

fn tool_result_json(id: &String, content: &Option<String>) -> (r: Json)
    ensures
        r.deep_view() == tool_result_message(id@, text_or_empty(content.deep_view())),
{
    let text = match content {
        Some(c) => c.clone(),
        None => String::new(),
    };
    let mut b: Vec<(String, Json)> = Vec::new();
    push_member(&mut b, "type", jtext("tool_result"));
    push_member(&mut b, "tool_use_id", Json::Str(id.clone()));
    push_member(&mut b, "content", Json::Str(text));
    let block = object(b);
    let mut items: Vec<Json> = Vec::new();
    proof {
        assert(aview(items@) =~= Seq::<JsonV>::empty());
    }
    push_item(&mut items, block);
    let arr = array(items);
    proof {
        assert(mview(b@) =~= seq![
            ("type"@, JsonV::Str("tool_result"@)),
            ("tool_use_id"@, JsonV::Str(id@)),
            ("content"@, JsonV::Str(text@)),
        ]);
        assert(aview(items@) =~= seq![block.deep_view()]);
    }
    api_message_json("user", arr)
}

/// What one message adds: a system text, a message, or an error.
pub open spec fn anthropic_message_step(
    acc: (Seq<Seq<char>>, Seq<JsonV>),
    m: ChatMessageV,
) -> Result<(Seq<Seq<char>>, Seq<JsonV>), ErrorV> {
    match m.role {
        Role::System => match m.content {
            Some(c) => if c.len() > 0 {
                Ok((acc.0.push(c), acc.1))
            } else {
                Ok(acc)
            },
            None => Ok(acc),
        },
        Role::User => match m.content {
            Some(c) => Ok((acc.0, acc.1.push(api_message("user"@, JsonV::Str(c))))),
            None => Err(ErrorV::MissingField("user.content"@)),
        },
        Role::Assistant => Ok(
            (acc.0, acc.1.push(api_message("assistant"@, assistant_content_spec(m)))),
        ),
        Role::Tool => match m.tool_call_id {
            Some(id) => Ok((acc.0, acc.1.push(tool_result_message(id, text_or_empty(m.content))))),
            None => Err(ErrorV::MissingField("tool.tool_call_id"@)),
        },
    }
}

/// The system texts and the API messages of a conversation, read in order;
/// the first malformed message gives its error.
pub open spec fn anthropic_messages_spec(msgs: Seq<ChatMessageV>) -> Result<
    (Seq<Seq<char>>, Seq<JsonV>),
    ErrorV,
>
    decreases msgs.len(),
{
    if msgs.len() == 0 {
        Ok((Seq::empty(), Seq::empty()))
    } else {
        match anthropic_messages_spec(msgs.drop_last()) {
            Err(e) => Err(e),
            Ok(acc) => anthropic_message_step(acc, msgs.last()),
        }
    }
}

pub open spec fn anthropic_tool_spec(f: FunctionDefinitionV) -> JsonV {
    JsonV::Object(
        seq![("name"@, JsonV::Str(f.name))] + opt_str_member("description"@, f.description)
            + seq![("input_schema"@, f.parameters)],
    )
}

/// Anthropic's `tool_choice`: `none` is not sent.
pub open spec fn anthropic_tool_choice_spec(c: ToolChoiceV) -> Option<JsonV> {
    match c {
        ToolChoiceV::Disabled => None,
        ToolChoiceV::Auto => Some(JsonV::Object(seq![("type"@, JsonV::Str("auto"@))])),
        ToolChoiceV::Required => Some(JsonV::Object(seq![("type"@, JsonV::Str("any"@))])),
        ToolChoiceV::Tool(name) => Some(
            JsonV::Object(seq![("type"@, JsonV::Str("tool"@)), ("name"@, JsonV::Str(name))]),
        ),
    }
}

pub open spec fn anthropic_tools_value(r: ChatRequestV) -> Option<JsonV> {
    match sent_tools(r) {
        Some(ts) => Some(JsonV::Array(ts.map_values(|t| anthropic_tool_spec(t)))),
        None => None,
    }
}

pub open spec fn anthropic_choice_value(r: ChatRequestV) -> Option<JsonV> {
    match (sent_tools(r), r.tool_choice) {
        (Some(_), Some(c)) => anthropic_tool_choice_spec(c),
        _ => None,
    }
}

pub open spec fn temperature_text(r: ChatRequestV) -> Seq<char> {
    match r.temperature {
        Some(t) => t,
        None => "0.2"@,
    }
}

pub open spec fn max_tokens_value(r: ChatRequestV) -> u32 {
    match r.max_tokens {
        Some(n) => n,
        None => 4096u32,
    }
}

pub open spec fn system_member(system: Seq<char>) -> Seq<(Seq<char>, JsonV)> {
    if system.len() > 0 {
        seq![("system"@, JsonV::Str(system))]
    } else {
        Seq::empty()
    }
}

pub open spec fn stream_member(stream: bool) -> Seq<(Seq<char>, JsonV)> {
    if stream {
        seq![("stream"@, JsonV::Bool(true))]
    } else {
        Seq::empty()
    }
}

/// The members of the Messages body, in order.
pub open spec fn anthropic_members(
    model: Seq<char>,
    r: ChatRequestV,
    parts: Seq<Seq<char>>,
    msgs: Seq<JsonV>,
    stream: bool,
) -> Seq<(Seq<char>, JsonV)> {
    seq![
        ("model"@, JsonV::Str(model)),
        ("max_tokens"@, JsonV::Number(decimal_text(max_tokens_value(r) as nat))),
    ] + system_member(join_spec(parts, "\n\n"@)) + seq![("messages"@, JsonV::Array(msgs))]
        + opt_member("tools"@, anthropic_tools_value(r)) + opt_member(
        "tool_choice"@,
        anthropic_choice_value(r),
    ) + seq![("temperature"@, JsonV::Number(temperature_text(r)))] + stream_member(stream)
}

/// The body of `POST …/messages`: `model`, `max_tokens` (4096 when unset),
/// the joined system texts (left out when empty), `messages`, the tools and
/// (only with tools) the tool choice, `temperature` (`0.2` when unset), and
/// `stream: true` for a stream.
pub open spec fn anthropic_body_spec(model: Seq<char>, r: ChatRequestV, stream: bool) -> Result<
    JsonV,
    ErrorV,
> {
    match anthropic_messages_spec(r.messages) {
        Err(e) => Err(e),
        Ok(pm) => Ok(JsonV::Object(anthropic_members(model, r, pm.0, pm.1, stream))),
    }
}

fn tool_use_block_json(c: &ToolCall) -> (r: Json)
    ensures
        r.deep_view() == tool_use_block(c.deep_view()),
{
    let input = match read_json(c.function.arguments.as_str()) {
        Ok(v) => v,
        Err(_) => object(Vec::new()),
    };
    proof {
        assert(mview(Seq::<(String, Json)>::empty()) =~= Seq::<(Seq<char>, JsonV)>::empty());
    }
    let mut m: Vec<(String, Json)> = Vec::new();
    push_member(&mut m, "type", jtext("tool_use"));
    push_member(&mut m, "id", Json::Str(c.id.clone()));
    push_member(&mut m, "name", Json::Str(c.function.name.clone()));
    push_member(&mut m, "input", input);
    let r = object(m);
    proof {
        assert(mview(m@) =~= tool_use_block(c.deep_view())->Object_0);
    }
    r
}

/// An assistant message's content in Anthropic form.
pub fn assistant_content(m: &ChatMessage) -> (r: Json)
    ensures
        r.deep_view() == assistant_content_spec(m.deep_view()),
{
    let has_tools = match &m.tool_calls {
        Some(t) => t.len() > 0,
        None => false,
    };
    if !has_tools {
        return match &m.content {
            Some(c) => Json::Str(c.clone()),
            None => Json::Str(String::new()),
        };
    }
    let calls = match &m.tool_calls {
        Some(t) => t,
        None => return Json::Str(String::new()),
    };
    let mut blocks: Vec<Json> = Vec::new();
    match &m.content {
        Some(t) => {
            if t.as_str().unicode_len() > 0 {
                let mut b: Vec<(String, Json)> = Vec::new();
                push_member(&mut b, "type", jtext("text"));
                push_member(&mut b, "text", Json::Str(t.clone()));
                let tb = object(b);
                proof {
                    assert(mview(b@) =~= text_block(t@)->Object_0);
                }
                push_item(&mut blocks, tb);
            }
        },
        None => {},
    }
    let ghost text_blocks = aview(blocks@);
    let ghost cs = calls.deep_view();
    let mut i: usize = 0;
    while i < calls.len()
        invariant
            cs == calls.deep_view(),
            0 <= i <= calls@.len(),
            aview(blocks@) == text_blocks + cs.take(i as int).map_values(|c| tool_use_block(c)),
        decreases calls@.len() - i,
    {
        push_item(&mut blocks, tool_use_block_json(&calls[i]));
        proof {
            assert(cs.take(i + 1).map_values(|c| tool_use_block(c)) =~= cs.take(
                i as int,
            ).map_values(|c| tool_use_block(c)).push(tool_use_block(cs[i as int])));
            assert(aview(blocks@) =~= text_blocks + cs.take(i + 1).map_values(
                |c| tool_use_block(c),
            ));
        }
        i = i + 1;
    }
    proof {
        assert(cs.take(calls@.len() as int) =~= cs);
        assert(text_blocks =~= match m.deep_view().content {
            Some(t) => if t.len() > 0 {
                seq![text_block(t)]
            } else {
                Seq::empty()
            },
            None => Seq::empty(),
        });
    }
    if blocks.len() == 0 {
        Json::Str(String::new())
    } else {
        array(blocks)
    }
}

fn api_message_json(role: &str, content: Json) -> (r: Json)
    ensures
        r.deep_view() == api_message(role@, content.deep_view()),
{
    let mut m: Vec<(String, Json)> = Vec::new();
    push_member(&mut m, "role", jtext(role));
    push_member(&mut m, "content", content);
    let r = object(m);
    proof {
        assert(mview(m@) =~= api_message(role@, content.deep_view())->Object_0);
    }
    r
}

/// The system texts and API messages of a conversation.
pub fn build_anthropic_messages(msgs: &Vec<ChatMessage>) -> (r: Result<(Vec<String>, Vec<Json>), Error>)
    ensures
        match anthropic_messages_spec(msgs.deep_view()) {
            Ok((parts, out)) => r matches Ok((p, o)) && p.deep_view() == parts && aview(o@) == out,
            Err(e) => r matches Err(e2) && e2.deep_view() == e,
        },
{
    let mut system_parts: Vec<String> = Vec::new();
    let mut out: Vec<Json> = Vec::new();
    let ghost ms = msgs.deep_view();
    let mut i: usize = 0;
    proof {
        assert(ms.take(0) =~= Seq::<ChatMessageV>::empty());
        assert(system_parts.deep_view() =~= Seq::<Seq<char>>::empty());
        assert(aview(out@) =~= Seq::<JsonV>::empty());
    }
    while i < msgs.len()
        invariant
            ms == msgs.deep_view(),
            0 <= i <= msgs@.len(),
            anthropic_messages_spec(ms.take(i as int)) == Ok::<(Seq<Seq<char>>, Seq<JsonV>), ErrorV>(
                (system_parts.deep_view(), aview(out@)),
            ),
        decreases msgs@.len() - i,
    {
        let m = &msgs[i];
        proof {
            assert(ms.take(i + 1).drop_last() =~= ms.take(i as int));
            assert(ms.take(i + 1).last() == m.deep_view());
        }
        match m.role {
            Role::System => {
                match &m.content {
                    Some(c) => {
                        if c.as_str().unicode_len() > 0 {
                            system_parts.push(c.clone());
                        }
                    },
                    None => {},
                }
            },
            Role::User => {
                match &m.content {
                    Some(c) => {
                        push_item(&mut out, api_message_json("user", Json::Str(c.clone())));
                    },
                    None => {
                        proof {
                            lemma_messages_error_persists(ms, i + 1);
                        }
                        return Err(Error::MissingField("user.content"));
                    },
                }
            },
            Role::Assistant => {
                push_item(&mut out, api_message_json("assistant", assistant_content(m)));
            },
            Role::Tool => {
                match &m.tool_call_id {
                    Some(id) => {
                        push_item(&mut out, tool_result_json(id, &m.content));
                    },
                    None => {
                        proof {
                            lemma_messages_error_persists(ms, i + 1);
                        }
                        return Err(Error::MissingField("tool.tool_call_id"));
                    },
                }
            },
        }
        proof {
            let next = anthropic_messages_spec(ms.take(i + 1));
            assert(next is Ok);
            assert(system_parts.deep_view() =~= next->Ok_0.0);
            assert(aview(out@) =~= next->Ok_0.1);
        }
        i = i + 1;
    }
    proof {
        assert(ms.take(msgs@.len() as int) =~= ms);
    }
    Ok((system_parts, out))
}

/// Once a prefix of the conversation is malformed, the whole is, with the
/// same error.
proof fn lemma_messages_error_persists(ms: Seq<ChatMessageV>, i: int)
    requires
        0 <= i <= ms.len(),
        anthropic_messages_spec(ms.take(i)) is Err,
    ensures
        anthropic_messages_spec(ms) == anthropic_messages_spec(ms.take(i)),
    decreases ms.len() - i,
{
    if i < ms.len() {
        assert(ms.take(i + 1).drop_last() =~= ms.take(i));
        lemma_messages_error_persists(ms, i + 1);
    } else {
        assert(ms.take(i) =~= ms);
    }
}

fn tool_to_anthropic(t: &ToolDefinition) -> (r: Json)
    ensures
        r.deep_view() == anthropic_tool_spec(t.deep_view()),
{
    let mut m: Vec<(String, Json)> = Vec::new();
    push_member(&mut m, "name", Json::Str(t.function.name.clone()));
    push_opt_str_member(&mut m, "description", &t.function.description);
    push_member(&mut m, "input_schema", clone_json(&t.function.parameters));
    let r = object(m);
    proof {
        assert(mview(m@) =~= anthropic_tool_spec(t.deep_view())->Object_0);
    }
    r
}

/// Anthropic's `tool_choice` value (none for `Disabled`).
pub fn anthropic_tool_choice_json(c: &ToolChoice) -> (r: Option<Json>)
    ensures
        r.deep_view() == anthropic_tool_choice_spec(c.deep_view()),
{
    let mut m: Vec<(String, Json)> = Vec::new();
    match c {
        ToolChoice::Disabled => {
            return None;
        },
        ToolChoice::Auto => {
            push_member(&mut m, "type", jtext("auto"));
        },
        ToolChoice::Required => {
            push_member(&mut m, "type", jtext("any"));
        },
        ToolChoice::Tool(name) => {
            push_member(&mut m, "type", jtext("tool"));
            push_member(&mut m, "name", Json::Str(name.clone()));
        },
    }
    let r = object(m);
    proof {
        assert(mview(m@) =~= anthropic_tool_choice_spec(c.deep_view()).unwrap()->Object_0);
    }
    Some(r)
}

fn anthropic_tools(r: &ChatRequest) -> (out: Option<Json>)
    ensures
        out.deep_view() == match sent_tools(r.deep_view()) {
            Some(ts) => Some(JsonV::Array(ts.map_values(|t| anthropic_tool_spec(t)))),
            None => None,
        },
{
    match &r.tools {
        Some(ts) => {
            if ts.len() == 0 {
                return None;
            }
            let mut items: Vec<Json> = Vec::new();
            let mut i: usize = 0;
            while i < ts.len()
                invariant
                    0 <= i <= ts@.len(),
                    aview(items@) == ts.deep_view().take(i as int).map_values(
                        |t| anthropic_tool_spec(t),
                    ),
                decreases ts@.len() - i,
            {
                push_item(&mut items, tool_to_anthropic(&ts[i]));
                proof {
                    assert(ts.deep_view().take(i + 1).map_values(|t| anthropic_tool_spec(t))
                        =~= ts.deep_view().take(i as int).map_values(
                        |t| anthropic_tool_spec(t),
                    ).push(anthropic_tool_spec(ts@[i as int].deep_view())));
                }
                i = i + 1;
            }
            proof {
                assert(ts.deep_view().take(ts@.len() as int) =~= ts.deep_view());
            }
            Some(array(items))
        },
        None => None,
    }
}

/// The body of `POST …/messages` for `request`.
#[verifier::spinoff_prover]
#[verifier::rlimit(40)]
pub fn build_anthropic_body(model: &str, request: &ChatRequest, stream: bool) -> (r: Result<
    Json,
    Error,
>)
    ensures
        result_view(r) == anthropic_body_spec(model@, request.deep_view(), stream),
{
    let (parts, messages) = match build_anthropic_messages(&request.messages) {
        Ok(pm) => pm,
        Err(e) => {
            return Err(e);
        },
    };
    proof {
        reveal_strlit("\n\n");
    }
    let system = join_strings(&parts, "\n\n");
    let tools = anthropic_tools(request);
    let choice: Option<Json> = if tools.is_some() {
        match &request.tool_choice {
            Some(c) => anthropic_tool_choice_json(c),
            None => None,
        }
    } else {
        None
    };
    let max_tokens: u32 = match request.max_tokens {
        Some(n) => n,
        None => DEFAULT_MAX_TOKENS,
    };
    let temperature = match &request.temperature {
        Some(t) => t.clone(),
        None => "0.2".to_string(),
    };
    let ghost rv = request.deep_view();
    let ghost msgs_v = aview(messages@);
    let mut members: Vec<(String, Json)> = Vec::new();
    push_member(&mut members, "model", Json::Str(model.to_string()));
    push_member(&mut members, "max_tokens", Json::Number(usize_to_text(max_tokens as usize)));
    let ghost m1 = mview(members@);
    if system.as_str().unicode_len() > 0 {
        push_member(&mut members, "system", Json::Str(system));
    }
    proof {
        assert(mview(members@) =~= m1 + system_member(join_spec(parts.deep_view(), "\n\n"@)));
    }
    push_member(&mut members, "messages", array(messages));
    push_opt_member(&mut members, "tools", tools);
    push_opt_member(&mut members, "tool_choice", choice);
    push_member(&mut members, "temperature", Json::Number(temperature));
    let ghost m2 = mview(members@);
    if stream {
        push_member(&mut members, "stream", Json::Bool(true));
    }
    proof {
        assert(mview(members@) =~= m2 + stream_member(stream));
        assert(mview(members@) =~= anthropic_members(model@, rv, parts.deep_view(), msgs_v, stream));
    }
    Ok(object(members))
}

/// The URL of the Messages endpoint under `base_url`.
pub fn anthropic_messages_url(base_url: &str) -> (r: String)
    ensures
        r@ == join_url_spec(base_url@, "/messages"@),
{
    join_url(base_url, "/messages")
}

/// The stop reasons of the Messages API.
pub open spec fn anthropic_stop_reason_spec(s: Seq<char>) -> Option<FinishReason> {
    if s == "end_turn"@ || s == "stop_sequence"@ {
        Some(FinishReason::Stop)
    } else if s == "max_tokens"@ {
        Some(FinishReason::Length)
    } else if s == "tool_use"@ {
        Some(FinishReason::ToolCalls)
    } else {
        None
    }
}

pub fn map_anthropic_stop_reason(s: &str) -> (r: Option<FinishReason>)
    ensures
        r == anthropic_stop_reason_spec(s@),
{
    if str_eq(s, "end_turn") || str_eq(s, "stop_sequence") {
        Some(FinishReason::Stop)
    } else if str_eq(s, "max_tokens") {
        Some(FinishReason::Length)
    } else if str_eq(s, "tool_use") {
        Some(FinishReason::ToolCalls)
    } else {
        None
    }
}

/// The input of a `tool_use` block, an empty object when absent.
pub open spec fn block_input(block: JsonV) -> JsonV {
    match jget(block, "input"@) {
        Some(i) => i,
        None => empty_object(),
    }
}

/// The tool call of a `tool_use` block: `id` and `name` must be strings.
pub open spec fn tool_use_call(block: JsonV) -> Result<ToolCallV, ErrorV> {
    match jstr(jget(block, "id"@)) {
        None => Err(ErrorV::MissingField("tool_use.id"@)),
        Some(id) => match jstr(jget(block, "name"@)) {
            None => Err(ErrorV::MissingField("tool_use.name"@)),
            Some(name) => Ok(
                ToolCallV {
                    id,
                    function: FunctionCallResultV {
                        name,
                        arguments: serde_json_write(block_input(block)),
                    },
                },
            ),
        },
    }
}

/// What one content block adds: a text part, a tool call, or an error.
pub open spec fn anthropic_block_step(acc: (Seq<Seq<char>>, Seq<ToolCallV>), block: JsonV) -> Result<
    (Seq<Seq<char>>, Seq<ToolCallV>),
    ErrorV,
> {
    let ty = jstr(jget(block, "type"@));
    if ty == Some("text"@) {
        match jstr(jget(block, "text"@)) {
            Some(t) => Ok((acc.0.push(t), acc.1)),
            None => Ok(acc),
        }
    } else if ty == Some("tool_use"@) {
        match tool_use_call(block) {
            Err(e) => Err(e),
            Ok(c) => Ok((acc.0, acc.1.push(c))),
        }
    } else {
        Ok(acc)
    }
}

/// The text parts and tool calls of the content blocks, in order; the first
/// malformed `tool_use` block gives its error.
pub open spec fn anthropic_blocks_spec(blocks: Seq<JsonV>) -> Result<
    (Seq<Seq<char>>, Seq<ToolCallV>),
    ErrorV,
>
    decreases blocks.len(),
{
    if blocks.len() == 0 {
        Ok((Seq::empty(), Seq::empty()))
    } else {
        match anthropic_blocks_spec(blocks.drop_last()) {
            Err(e) => Err(e),
            Ok(acc) => anthropic_block_step(acc, blocks.last()),
        }
    }
}

/// The answer of a non-stream call: the text blocks joined, the `tool_use`
/// blocks as tool calls (their `input` written as JSON text), and the stop
/// reason.
pub open spec fn anthropic_response_spec(body: JsonV) -> Result<ChatResponseV, ErrorV> {
    match jarr(jget(body, "content"@)) {
        None => Err(ErrorV::MissingField("content"@)),
        Some(blocks) => match anthropic_blocks_spec(blocks) {
            Err(e) => Err(e),
            Ok((parts, calls)) => Ok(
                ChatResponseV {
                    content: if parts.len() == 0 {
                        None
                    } else {
                        Some(join_spec(parts, Seq::empty()))
                    },
                    tool_calls: if calls.len() == 0 {
                        None
                    } else {
                        Some(calls)
                    },
                    finish_reason: match jstr(jget(body, "stop_reason"@)) {
                        Some(s) => anthropic_stop_reason_spec(s),
                        None => None,
                    },
                },
            ),
        },
    }
}

proof fn lemma_blocks_error_persists(bs: Seq<JsonV>, i: int)
    requires
        0 <= i <= bs.len(),
        anthropic_blocks_spec(bs.take(i)) is Err,
    ensures
        anthropic_blocks_spec(bs) == anthropic_blocks_spec(bs.take(i)),
    decreases bs.len() - i,
{
    if i < bs.len() {
        assert(bs.take(i + 1).drop_last() =~= bs.take(i));
        lemma_blocks_error_persists(bs, i + 1);
    } else {
        assert(bs.take(i) =~= bs);
    }
}

fn tool_use_call_json(block: &Json) -> (r: Result<ToolCall, Error>)
    ensures
        result_view(r) == tool_use_call(block.deep_view()),
{
    let id = match as_str(field(block, "id")) {
        Some(s) => s.clone(),
        None => return Err(Error::MissingField("tool_use.id")),
    };
    let name = match as_str(field(block, "name")) {
        Some(s) => s.clone(),
        None => return Err(Error::MissingField("tool_use.name")),
    };
    let arguments = match field(block, "input") {
        Some(input) => write_json(input),
        None => {
            let e = object(Vec::new());
            proof {
                assert(mview(Seq::<(String, Json)>::empty()) =~= Seq::<(Seq<char>, JsonV)>::empty());
            }
            write_json(&e)
        },
    };
    Ok(ToolCall { id, function: FunctionCallResult { name, arguments } })
}

/// Reads the answer of a non-stream call.
pub fn parse_anthropic_message_response(body: &Json) -> (r: Result<ChatResponse, Error>)
    ensures
        result_view(r) == anthropic_response_spec(body.deep_view()),
{
    let content = match as_array(field(body, "content")) {
        Some(c) => c,
        None => return Err(Error::MissingField("content")),
    };
    let ghost bs = content.deep_view();
    let mut text_parts: Vec<String> = Vec::new();
    let mut tool_calls: Vec<ToolCall> = Vec::new();
    let mut i: usize = 0;
    proof {
        assert(bs.take(0) =~= Seq::<JsonV>::empty());
        assert(text_parts.deep_view() =~= Seq::<Seq<char>>::empty());
        assert(tool_calls.deep_view() =~= Seq::<ToolCallV>::empty());
    }
    while i < content.len()
        invariant
            bs == content.deep_view(),
            jarr(jget(body.deep_view(), "content"@)) == Some(bs),
            0 <= i <= content@.len(),
            anthropic_blocks_spec(bs.take(i as int)) == Ok::<
                (Seq<Seq<char>>, Seq<ToolCallV>),
                ErrorV,
            >((text_parts.deep_view(), tool_calls.deep_view())),
        decreases content@.len() - i,
    {
        let block = &content[i];
        proof {
            assert(bs.take(i + 1).drop_last() =~= bs.take(i as int));
            assert(bs.take(i + 1).last() == block.deep_view());
        }
        let ty = as_str(field(block, "type"));
        let is_text = match ty {
            Some(t) => str_eq(t.as_str(), "text"),
            None => false,
        };
        let is_tool_use = match ty {
            Some(t) => str_eq(t.as_str(), "tool_use"),
            None => false,
        };
        if is_text {
            match as_str(field(block, "text")) {
                Some(t) => {
                    text_parts.push(t.clone());
                    proof {
                        assert(text_parts.deep_view() =~= anthropic_blocks_spec(
                            bs.take(i + 1),
                        )->Ok_0.0);
                    }
                },
                None => {},
            }
        } else if is_tool_use {
            let call = match tool_use_call_json(block) {
                Ok(c) => c,
                Err(e) => {
                    proof {
                        assert(anthropic_blocks_spec(bs.take(i + 1)) == Err::<
                            (Seq<Seq<char>>, Seq<ToolCallV>),
                            ErrorV,
                        >(e.deep_view()));
                        lemma_blocks_error_persists(bs, i + 1);
                        assert(jarr(jget(body.deep_view(), "content"@)) == Some(bs));
                    }
                    return Err(e);
                },
            };
            tool_calls.push(call);
            proof {
                assert(tool_calls.deep_view() =~= anthropic_blocks_spec(bs.take(i + 1))->Ok_0.1);
            }
        }
        i = i + 1;
    }
    proof {
        assert(bs.take(content@.len() as int) =~= bs);
    }
    let text = if text_parts.len() == 0 {
        None
    } else {
        Some(join_strings(&text_parts, ""))
    };
    proof {
        reveal_strlit("");
        assert(""@ =~= Seq::<char>::empty());
    }
    let finish_reason = match as_str(field(body, "stop_reason")) {
        Some(s) => map_anthropic_stop_reason(s.as_str()),
        None => None,
    };
    let calls = if tool_calls.len() == 0 {
        None
    } else {
        Some(tool_calls)
    };
    Ok(ChatResponse { content: text, tool_calls: calls, finish_reason })
}

/// What a stream event means before the end-reason bookkeeping: a chunk, or
/// `message_stop`.
pub enum AnthropicStreamParse {
    Chunk(ChatChunk),
    MessageStopOnly,
}

pub enum AnthropicStreamParseV {
    Chunk(ChatChunkV),
    MessageStopOnly,
}

impl DeepView for AnthropicStreamParse {
    type V = AnthropicStreamParseV;

    open spec fn deep_view(&self) -> AnthropicStreamParseV {
        match self {
            AnthropicStreamParse::Chunk(c) => AnthropicStreamParseV::Chunk(c.deep_view()),
            AnthropicStreamParse::MessageStopOnly => AnthropicStreamParseV::MessageStopOnly,
        }
    }
}

/// The `index` of a stream payload, 0 when absent, cut to 32 bits.
pub open spec fn stream_index(v: JsonV) -> u32 {
    match ju64(jget(v, "index"@)) {
        Some(n) => (n as u64) as u32,
        None => 0,
    }
}

/// The message of an `error` payload.
pub open spec fn stream_error_message(v: JsonV) -> Seq<char> {
    match jstr(oget(jget(v, "error"@), "message"@)) {
        Some(m) => m,
        None => "anthropic stream error"@,
    }
}

pub open spec fn tool_delta_chunk(d: ToolCallDeltaV) -> ChatChunkV {
    ChatChunkV { delta: None, tool_call_deltas: Some(seq![d]), finish_reason: None }
}

/// `content_block_start`: a `tool_use` block opens a tool call (its id and
/// name).
pub open spec fn block_start_spec(v: JsonV) -> Option<AnthropicStreamParseV> {
    match jget(v, "content_block"@) {
        Some(block) => if jstr(jget(block, "type"@)) == Some("tool_use"@) {
            Some(
                AnthropicStreamParseV::Chunk(
                    tool_delta_chunk(
                        ToolCallDeltaV {
                            index: stream_index(v),
                            id: jstr(jget(block, "id"@)),
                            function_name: jstr(jget(block, "name"@)),
                            function_arguments: None,
                        },
                    ),
                ),
            )
        } else {
            None
        },
        None => None,
    }
}

pub open spec fn partial_json_text(d: JsonV) -> Seq<char> {
    match jstr(jget(d, "partial_json"@)) {
        Some(p) => p,
        None => Seq::empty(),
    }
}

/// `content_block_delta`: a `text_delta` with text gives text; an
/// `input_json_delta` gives a piece of tool arguments.
pub open spec fn block_delta_spec(v: JsonV) -> Option<AnthropicStreamParseV> {
    match jget(v, "delta"@) {
        Some(d) => {
            let dt = jstr(jget(d, "type"@));
            if dt == Some("text_delta"@) {
                match jstr(jget(d, "text"@)) {
                    Some(t) => Some(
                        AnthropicStreamParseV::Chunk(
                            ChatChunkV { delta: Some(t), tool_call_deltas: None, finish_reason: None },
                        ),
                    ),
                    None => None,
                }
            } else if dt == Some("input_json_delta"@) {
                Some(
                    AnthropicStreamParseV::Chunk(
                        tool_delta_chunk(
                            ToolCallDeltaV {
                                index: stream_index(v),
                                id: None,
                                function_name: None,
                                function_arguments: Some(partial_json_text(d)),
                            },
                        ),
                    ),
                )
            } else {
                None
            }
        },
        None => None,
    }
}

/// `message_delta`: a known stop reason gives the end reason.
pub open spec fn message_delta_spec(v: JsonV) -> Option<AnthropicStreamParseV> {
    match jstr(oget(jget(v, "delta"@), "stop_reason"@)) {
        Some(r) => match anthropic_stop_reason_spec(r) {
            Some(fr) => Some(
                AnthropicStreamParseV::Chunk(
                    ChatChunkV { delta: None, tool_call_deltas: None, finish_reason: Some(fr) },
                ),
            ),
            None => None,
        },
        None => None,
    }
}

pub open spec fn lift_parse(p: Option<AnthropicStreamParseV>) -> Option<Result<AnthropicStreamParseV, ErrorV>> {
    match p {
        Some(x) => Some(Ok(x)),
        None => None,
    }
}

/// What a parsed payload means: an `error` event or payload becomes `Api`
/// with status 500; otherwise the payload's `type` decides.
pub open spec fn anthropic_payload_spec(event: Option<Seq<char>>, v: JsonV) -> Option<
    Result<AnthropicStreamParseV, ErrorV>,
> {
    let ty = jstr(jget(v, "type"@));
    if event == Some("error"@) || ty == Some("error"@) {
        Some(Err(ErrorV::Api { status: 500, message: stream_error_message(v) }))
    } else if ty == Some("content_block_start"@) {
        lift_parse(block_start_spec(v))
    } else if ty == Some("content_block_delta"@) {
        lift_parse(block_delta_spec(v))
    } else if ty == Some("message_delta"@) {
        lift_parse(message_delta_spec(v))
    } else if ty == Some("message_stop"@) {
        Some(Ok(AnthropicStreamParseV::MessageStopOnly))
    } else {
        None
    }
}

/// What one stream event means: nothing for an empty payload, `Parse` for a
/// payload that is not JSON, otherwise the meaning of the payload.
pub open spec fn anthropic_event_spec(ev: SseEventV) -> Option<Result<AnthropicStreamParseV, ErrorV>> {
    let data = trim_spec(ev.data);
    if data.len() == 0 {
        None
    } else {
        match serde_json_read(data) {
            Err(m) => Some(Err(ErrorV::Parse(m))),
            Ok(v) => anthropic_payload_spec(ev.event, v),
        }
    }
}

pub open spec fn opt_parse_view(r: Option<Result<AnthropicStreamParse, Error>>) -> Option<
    Result<AnthropicStreamParseV, ErrorV>,
> {
    match r {
        Some(x) => Some(result_view(x)),
        None => None,
    }
}

fn stream_index_json(v: &Json) -> (r: u32)
    ensures
        r == stream_index(v.deep_view()),
{
    match as_u64(field(v, "index")) {
        Some(n) => n as u32,
        None => 0,
    }
}

fn block_start_json(v: &Json) -> (r: Option<AnthropicStreamParse>)
    ensures
        r.deep_view() == block_start_spec(v.deep_view()),
{
    let block = match field(v, "content_block") {
        Some(b) => b,
        None => return None,
    };
    let is_tool_use = match as_str(field(block, "type")) {
        Some(t) => str_eq(t.as_str(), "tool_use"),
        None => false,
    };
    if !is_tool_use {
        return None;
    }
    let id = match as_str(field(block, "id")) {
        Some(s) => Some(s.clone()),
        None => None,
    };
    let name = match as_str(field(block, "name")) {
        Some(s) => Some(s.clone()),
        None => None,
    };
    let d = ToolCallDelta { index: stream_index_json(v), id, function_name: name, function_arguments: None };
    let c = ChatChunk::tool_deltas(vec![d]);
    proof {
        assert(c.deep_view().tool_call_deltas == Some(seq![d.deep_view()]));
    }
    Some(AnthropicStreamParse::Chunk(c))
}

fn block_delta_json(v: &Json) -> (r: Option<AnthropicStreamParse>)
    ensures
        r.deep_view() == block_delta_spec(v.deep_view()),
{
    let d = match field(v, "delta") {
        Some(d) => d,
        None => return None,
    };
    let dt = as_str(field(d, "type"));
    let is_text = match dt {
        Some(t) => str_eq(t.as_str(), "text_delta"),
        None => false,
    };
    let is_json = match dt {
        Some(t) => str_eq(t.as_str(), "input_json_delta"),
        None => false,
    };
    if is_text {
        match as_str(field(d, "text")) {
            Some(t) => Some(AnthropicStreamParse::Chunk(ChatChunk::delta(t.as_str()))),
            None => None,
        }
    } else if is_json {
        let partial = match as_str(field(d, "partial_json")) {
            Some(p) => p.clone(),
            None => String::new(),
        };
        let x = ToolCallDelta {
            index: stream_index_json(v),
            id: None,
            function_name: None,
            function_arguments: Some(partial),
        };
        let c = ChatChunk::tool_deltas(vec![x]);
        proof {
            assert(c.deep_view().tool_call_deltas == Some(seq![x.deep_view()]));
        }
        Some(AnthropicStreamParse::Chunk(c))
    } else {
        None
    }
}

fn message_delta_json(v: &Json) -> (r: Option<AnthropicStreamParse>)
    ensures
        r.deep_view() == message_delta_spec(v.deep_view()),
{
    match as_str(field_opt(field(v, "delta"), "stop_reason")) {
        Some(s) => match map_anthropic_stop_reason(s.as_str()) {
            Some(fr) => Some(AnthropicStreamParse::Chunk(ChatChunk::finish(fr))),
            None => None,
        },
        None => None,
    }
}

fn lift_json(p: Option<AnthropicStreamParse>) -> (r: Option<Result<AnthropicStreamParse, Error>>)
    ensures
        opt_parse_view(r) == lift_parse(p.deep_view()),
{
    match p {
        Some(x) => Some(Ok(x)),
        None => None,
    }
}

fn stream_error_message_json(v: &Json) -> (r: String)
    ensures
        r@ == stream_error_message(v.deep_view()),
{
    match as_str(field_opt(field(v, "error"), "message")) {
        Some(m) => m.clone(),
        None => "anthropic stream error".to_string(),
    }
}

/// Reads one stream event.
pub fn anthropic_parse_sse_event(ev: SseEvent) -> (r: Option<Result<AnthropicStreamParse, Error>>)
    ensures
        opt_parse_view(r) == anthropic_event_spec(ev.deep_view()),
{
    let data = str_trim(ev.data.as_str());
    if data.unicode_len() == 0 {
        return None;
    }
    let v = match read_json(data) {
        Ok(v) => v,
        Err(m) => return Some(Err(Error::Parse(m))),
    };
    let ty = as_str(field(&v, "type"));
    let event_is_error = match &ev.event {
        Some(e) => str_eq(e.as_str(), "error"),
        None => false,
    };
    let type_is = |name: &str| -> (b: bool)
        ensures
            b == (ty.deep_view() == Some(name@)),
        {
            match ty {
                Some(t) => str_eq(t.as_str(), name),
                None => false,
            }
        };
    if event_is_error || type_is("error") {
        return Some(Err(Error::Api { status: 500, message: stream_error_message_json(&v) }));
    }
    if type_is("content_block_start") {
        lift_json(block_start_json(&v))
    } else if type_is("content_block_delta") {
        lift_json(block_delta_json(&v))
    } else if type_is("message_delta") {
        lift_json(message_delta_json(&v))
    } else if type_is("message_stop") {
        Some(Ok(AnthropicStreamParse::MessageStopOnly))
    } else {
        None
    }
}

/// One stream item with the end-reason bookkeeping: `finish_emitted` records
/// that a chunk with an end reason has been handed out; a `message_stop`
/// then yields nothing, and otherwise yields one `Stop` chunk.
pub open spec fn anthropic_item_spec(item: Result<SseEventV, ErrorV>, emitted: bool) -> (
    Option<Result<ChatChunkV, ErrorV>>,
    bool,
) {
    match item {
        Err(e) => (Some(Err(e)), emitted),
        Ok(ev) => match anthropic_event_spec(ev) {
            None => (None, emitted),
            Some(Err(e)) => (Some(Err(e)), emitted),
            Some(Ok(AnthropicStreamParseV::Chunk(c))) => (
                Some(Ok(c)),
                emitted || c.finish_reason is Some,
            ),
            Some(Ok(AnthropicStreamParseV::MessageStopOnly)) => if emitted {
                (None, true)
            } else {
                (
                    Some(
                        Ok(
                            ChatChunkV {
                                delta: None,
                                tool_call_deltas: None,
                                finish_reason: Some(FinishReason::Stop),
                            },
                        ),
                    ),
                    true,
                )
            },
        },
    }
}

pub open spec fn item_view(item: Result<SseEvent, Error>) -> Result<SseEventV, ErrorV> {
    match item {
        Ok(ev) => Ok(ev.deep_view()),
        Err(e) => Err(e.deep_view()),
    }
}

pub open spec fn opt_chunk_view(r: Option<Result<ChatChunk, Error>>) -> Option<Result<ChatChunkV, ErrorV>> {
    match r {
        Some(x) => Some(result_view(x)),
        None => None,
    }
}

/// Reads one stream item and keeps the end-reason bookkeeping.
pub fn anthropic_stream_item_to_chunk(item: Result<SseEvent, Error>, finish_emitted: &mut bool) -> (r:
    Option<Result<ChatChunk, Error>>)
    ensures
        (opt_chunk_view(r), *final(finish_emitted)) == anthropic_item_spec(
            item_view(item),
            *old(finish_emitted),
        ),
{
    let ev = match item {
        Err(e) => return Some(Err(e)),
        Ok(ev) => ev,
    };
    let inner = match anthropic_parse_sse_event(ev) {
        None => return None,
        Some(Err(e)) => return Some(Err(e)),
        Some(Ok(p)) => p,
    };
    match inner {
        AnthropicStreamParse::Chunk(c) => {
            if c.finish_reason.is_some() {
                *finish_emitted = true;
            }
            Some(Ok(c))
        },
        AnthropicStreamParse::MessageStopOnly => {
            if *finish_emitted {
                None
            } else {
                *finish_emitted = true;
                Some(Ok(ChatChunk::finish(FinishReason::Stop)))
            }
        },
    }
}

/// The chunks and the bookkeeping flag after a run of stream items.
pub open spec fn anthropic_items_spec(items: Seq<Result<SseEventV, ErrorV>>, emitted: bool) -> (
    Seq<Option<Result<ChatChunkV, ErrorV>>>,
    bool,
)
    decreases items.len(),
{
    if items.len() == 0 {
        (Seq::empty(), emitted)
    } else {
        let (outs, flag) = anthropic_items_spec(items.drop_last(), emitted);
        let (o, f) = anthropic_item_spec(items.last(), flag);
        (outs.push(o), f)
    }
}

pub open spec fn is_stop_from_message_stop(item: Result<SseEventV, ErrorV>) -> bool {
    match item {
        Ok(ev) => anthropic_event_spec(ev) == Some(
            Ok::<AnthropicStreamParseV, ErrorV>(AnthropicStreamParseV::MessageStopOnly),
        ),
        Err(_) => false,
    }
}

/// The number of `message_stop` events that produced a chunk.
pub open spec fn synthesized_stops(items: Seq<Result<SseEventV, ErrorV>>, emitted: bool) -> nat
    decreases items.len(),
{
    if items.len() == 0 {
        0
    } else {
        let prev = synthesized_stops(items.drop_last(), emitted);
        let flag = anthropic_items_spec(items.drop_last(), emitted).1;
        if is_stop_from_message_stop(items.last()) && !flag {
            prev + 1
        } else {
            prev
        }
    }
}

/// Once set, the bookkeeping flag stays set.
pub proof fn lemma_flag_stays_set(items: Seq<Result<SseEventV, ErrorV>>)
    ensures
        anthropic_items_spec(items, true).1,
    decreases items.len(),
{
    if items.len() > 0 {
        lemma_flag_stays_set(items.drop_last());
    }
}

/// Over any run of stream items, `message_stop` adds at most one `Stop`
/// chunk, and none once an end reason has been handed out.
pub proof fn lemma_at_most_one_synthesized_stop(items: Seq<Result<SseEventV, ErrorV>>, emitted: bool)
    ensures
        synthesized_stops(items, emitted) <= 1,
        emitted ==> synthesized_stops(items, emitted) == 0,
        synthesized_stops(items, emitted) == 1 ==> anthropic_items_spec(items, emitted).1,
    decreases items.len(),
{
    if items.len() > 0 {
        let init = items.drop_last();
        lemma_at_most_one_synthesized_stop(init, emitted);
        if emitted {
            lemma_flag_stays_set(init);
        }
        let flag = anthropic_items_spec(init, emitted).1;
        if synthesized_stops(init, emitted) == 1 {
            assert(flag);
        }
        if flag {
            assert(anthropic_item_spec(items.last(), flag).1);
        }
        if is_stop_from_message_stop(items.last()) && !flag {
            assert(anthropic_item_spec(items.last(), flag).1);
        }
    }
}

/// How many API messages a conversation gives: one per message that is not a
/// system message.
pub open spec fn api_message_count(ms: Seq<ChatMessageV>) -> nat
    decreases ms.len(),
{
    if ms.len() == 0 {
        0
    } else {
        api_message_count(ms.drop_last()) + if ms.last().role == Role::System {
            0nat
        } else {
            1nat
        }
    }
}

proof fn lemma_messages_count(ms: Seq<ChatMessageV>)
    ensures
        anthropic_messages_spec(ms) matches Ok((p, out)) ==> out.len() == api_message_count(ms),
    decreases ms.len(),
{
    if ms.len() > 0 {
        lemma_messages_count(ms.drop_last());
    }
}

proof fn lemma_messages_prefix(ms: Seq<ChatMessageV>, j: int)
    requires
        0 <= j <= ms.len(),
        anthropic_messages_spec(ms) is Ok,
    ensures
        anthropic_messages_spec(ms.take(j)) is Ok,
        anthropic_messages_spec(ms.take(j))->Ok_0.1.len() <= anthropic_messages_spec(ms)->Ok_0.1.len(),
        forall|x: int|
            0 <= x < anthropic_messages_spec(ms.take(j))->Ok_0.1.len() ==> #[trigger] anthropic_messages_spec(
                ms.take(j),
            )->Ok_0.1[x] == anthropic_messages_spec(ms)->Ok_0.1[x],
    decreases ms.len(),
{
    if j == ms.len() {
        assert(ms.take(j) =~= ms);
    } else {
        let prev = ms.drop_last();
        assert(prev.take(j) =~= ms.take(j));
        lemma_messages_prefix(prev, j);
    }
}

/// In the Messages body, a message that answers a tool call becomes, at its
/// own position among the API messages (system messages give none), a `user`
/// message whose one `tool_result` block names the call and carries the
/// tool's output.
pub proof fn lemma_anthropic_tool_result_carries_output(
    model: Seq<char>,
    r: ChatRequestV,
    stream: bool,
    k: int,
)
    requires
        0 <= k < r.messages.len(),
        r.messages[k].role == Role::Tool,
        r.messages[k].tool_call_id is Some,
    ensures
        match anthropic_body_spec(model, r, stream) {
            Ok(body) => match jget(body, "messages"@) {
            Some(JsonV::Array(out)) => api_message_count(r.messages.take(k)) < out.len()
                && out[api_message_count(r.messages.take(k)) as int] == JsonV::Object(
                seq![
                    ("role"@, JsonV::Str("user"@)),
                    (
                        "content"@,
                        JsonV::Array(
                            seq![
                                JsonV::Object(
                                    seq![
                                        ("type"@, JsonV::Str("tool_result"@)),
                                        (
                                            "tool_use_id"@,
                                            JsonV::Str(r.messages[k].tool_call_id->Some_0),
                                        ),
                                        (
                                            "content"@,
                                            JsonV::Str(
                                                match r.messages[k].content {
                                                    Some(c) => c,
                                                    None => Seq::empty(),
                                                },
                                            ),
                                        ),
                                    ],
                                ),
                            ],
                        ),
                    ),
                ],
            ),
            _ => false,
            },
            Err(_) => true,
        },
{
    let ms = r.messages;
    if anthropic_messages_spec(ms) is Ok {
        lemma_messages_prefix(ms, k + 1);
        let t = ms.take(k + 1);
        assert(t.drop_last() =~= ms.take(k));
        assert(t.last() == ms[k]);
        lemma_messages_count(ms.take(k));
        let whole = anthropic_messages_spec(ms)->Ok_0;
        let members = anthropic_members(model, r, whole.0, whole.1, stream);
        reveal_strlit("model");
        reveal_strlit("max_tokens");
        reveal_strlit("system");
        reveal_strlit("messages");
        let head = seq![
            ("model"@, JsonV::Str(model)),
            ("max_tokens"@, JsonV::Number(decimal_text(max_tokens_value(r) as nat))),
        ] + system_member(join_spec(whole.0, "\n\n"@));
        let tail = seq![("messages"@, JsonV::Array(whole.1))] + opt_member(
            "tools"@,
            anthropic_tools_value(r),
        ) + opt_member("tool_choice"@, anthropic_choice_value(r)) + seq![
            ("temperature"@, JsonV::Number(temperature_text(r))),
        ] + stream_member(stream);
        assert(members =~= head + tail);
        assert("model"@ != "messages"@) by {
            assert("model"@.len() != "messages"@.len());
        }
        assert("max_tokens"@ != "messages"@) by {
            assert("max_tokens"@.len() != "messages"@.len());
        }
        assert("system"@ != "messages"@) by {
            assert("system"@.len() != "messages"@.len());
        }
        lemma_member_after(head, tail, "messages"@);
        assert(member_spec(tail, "messages"@) == Some(JsonV::Array(whole.1)));
        assert(jget(anthropic_body_spec(model, r, stream)->Ok_0, "messages"@) == Some(
            JsonV::Array(whole.1),
        ));
        let before = anthropic_messages_spec(ms.take(k));
        assert(before is Ok);
        let pos = api_message_count(ms.take(k)) as int;
        let item = tool_result_message(ms[k].tool_call_id->Some_0, text_or_empty(ms[k].content));
        assert(anthropic_messages_spec(t) == Ok::<(Seq<Seq<char>>, Seq<JsonV>), ErrorV>(
            (before->Ok_0.0, before->Ok_0.1.push(item)),
        ));
        assert(before->Ok_0.1.len() == pos);
        assert(anthropic_messages_spec(t)->Ok_0.1[pos] == item);
        assert(whole.1[pos] == item);
        assert(pos < whole.1.len());
        let body = anthropic_body_spec(model, r, stream)->Ok_0;
        let out = jget(body, "messages"@)->Some_0->Array_0;
        assert(out == whole.1);
        assert(api_message_count(r.messages.take(k)) < out.len());
        assert(out[api_message_count(r.messages.take(k)) as int] == item);
        let lit = JsonV::Object(
            seq![
                ("role"@, JsonV::Str("user"@)),
                (
                    "content"@,
                    JsonV::Array(
                        seq![
                            JsonV::Object(
                                seq![
                                    ("type"@, JsonV::Str("tool_result"@)),
                                    ("tool_use_id"@, JsonV::Str(r.messages[k].tool_call_id->Some_0)),
                                    (
                                        "content"@,
                                        JsonV::Str(
                                            match r.messages[k].content {
                                                Some(c) => c,
                                                None => Seq::empty(),
                                            },
                                        ),
                                    ),
                                ],
                            ),
                        ],
                    ),
                ),
            ],
        );
        let ia = item->Object_0;
        let la = lit->Object_0;
        assert(ia.len() == la.len());
        assert(ia[0] == la[0]);
        assert(ia[1].0 == la[1].0);
        let ib = ia[1].1->Array_0[0]->Object_0;
        let lb = la[1].1->Array_0[0]->Object_0;
        assert(ib[0] == lb[0]);
        assert(ib[1] == lb[1]);
        assert(ib[2] == lb[2]);
        assert(ib =~= lb);
        assert(ia[1].1->Array_0 =~= la[1].1->Array_0);
        assert(ia =~= la);
        assert(item == lit);
    }
}

} // verus!
