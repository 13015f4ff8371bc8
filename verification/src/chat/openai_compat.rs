//! OpenAI Chat Completions (`POST {base_url}/chat/completions`), used for
//! OpenAI, Aliyun, Ollama and Zhipu: the request body, the reading of the
//! answer and of the `data:` chunks of a stream.

use vstd::prelude::*;

use crate::chat::types::{
    clone_opt_string, ChatChunk, ChatChunkV, ChatMessage, ChatMessageV, ChatRequest,
    ChatRequestV, ChatResponse, ChatResponseV, FinishReason, FunctionCallResult,
    FunctionCallResultV, FunctionDefinitionV, Role, ToolCall, ToolCallDelta, ToolCallDeltaV,
    ToolCallV, ToolChoice, ToolChoiceV, ToolDefinition,
};
use crate::error::{Error, ErrorV};
use crate::json::{
    array, as_array, lemma_member_after, member_spec, as_str, as_u64, clone_json, field, field_opt, jarr, jget, jstr, jtext, ju64,
    mview, aview, object, oget, opt_member, opt_str_member, push_item, push_member,
    push_opt_member, push_opt_str_member, read_json, serde_json_read, Json, JsonV,
};
use crate::sse::{SseEvent, SseEventV};
use crate::text::{decimal_text, join_url, join_url_spec, str_eq, str_trim, trim_spec, usize_to_text};

verus! {

/// The temperature sent when the request sets none.
pub open spec fn default_temperature() -> Seq<char> {
    "0.2"@
}

pub open spec fn role_name(r: Role) -> Seq<char> {
    match r {
        Role::System => "system"@,
        Role::User => "user"@,
        Role::Assistant => "assistant"@,
        Role::Tool => "tool"@,
    }
}

pub fn role_str(r: Role) -> (s: &'static str)
    ensures
        s@ == role_name(r),
{
    match r {
        Role::System => "system",
        Role::User => "user",
        Role::Assistant => "assistant",
        Role::Tool => "tool",
    }
}

pub open spec fn openai_tool_call_spec(c: ToolCallV) -> JsonV {
    JsonV::Object(
        seq![
            ("id"@, JsonV::Str(c.id)),
            ("type"@, JsonV::Str("function"@)),
            (
                "function"@,
                JsonV::Object(
                    seq![
                        ("name"@, JsonV::Str(c.function.name)),
                        ("arguments"@, JsonV::Str(c.function.arguments)),
                    ],
                ),
            ),
        ],
    )
}

/// The OpenAI form of a message: `role`, then `content`, `tool_calls`,
/// `tool_call_id` and `name` where present.
pub open spec fn openai_message_spec(m: ChatMessageV) -> JsonV {
    JsonV::Object(
        seq![("role"@, JsonV::Str(role_name(m.role)))] + opt_str_member("content"@, m.content)
            + opt_member(
            "tool_calls"@,
            match m.tool_calls {
                Some(cs) => Some(JsonV::Array(cs.map_values(|c| openai_tool_call_spec(c)))),
                None => None,
            },
        ) + opt_str_member("tool_call_id"@, m.tool_call_id) + opt_str_member("name"@, m.name),
    )
}

pub open spec fn openai_tool_spec(f: FunctionDefinitionV) -> JsonV {
    JsonV::Object(
        seq![
            ("type"@, JsonV::Str("function"@)),
            (
                "function"@,
                JsonV::Object(
                    seq![("name"@, JsonV::Str(f.name))] + opt_str_member(
                        "description"@,
                        f.description,
                    ) + seq![("parameters"@, f.parameters)],
                ),
            ),
        ],
    )
}

pub open spec fn openai_tool_choice_spec(c: ToolChoiceV) -> JsonV {
    match c {
        ToolChoiceV::Disabled => JsonV::Str("none"@),
        ToolChoiceV::Auto => JsonV::Str("auto"@),
        ToolChoiceV::Required => JsonV::Str("required"@),
        ToolChoiceV::Tool(name) => JsonV::Object(
            seq![
                ("type"@, JsonV::Str("function"@)),
                ("function"@, JsonV::Object(seq![("name"@, JsonV::Str(name))])),
            ],
        ),
    }
}

/// The tools sent: none when the request has no tools or an empty list.
pub open spec fn sent_tools(r: ChatRequestV) -> Option<Seq<FunctionDefinitionV>> {
    match r.tools {
        Some(ts) => if ts.len() > 0 {
            Some(ts)
        } else {
            None
        },
        None => None,
    }
}

pub open spec fn number_member(key: Seq<char>, n: Option<Seq<char>>) -> Seq<(Seq<char>, JsonV)> {
    match n {
        Some(t) => seq![(key, JsonV::Number(t))],
        None => Seq::empty(),
    }
}

pub open spec fn count_text(n: Option<u32>) -> Option<Seq<char>> {
    match n {
        Some(k) => Some(decimal_text(k as nat)),
        None => None,
    }
}

/// The body of `POST …/chat/completions`: `model`, `messages`, the tools and
/// (only with tools) the tool choice, `temperature` (`0.2` when unset),
/// `max_tokens`, `top_p`, and `stream: true` for a stream.
pub open spec fn openai_body_spec(model: Seq<char>, r: ChatRequestV, stream: bool) -> JsonV {
    let tools = sent_tools(r);
    JsonV::Object(
        seq![
            ("model"@, JsonV::Str(model)),
            ("messages"@, JsonV::Array(r.messages.map_values(|m| openai_message_spec(m)))),
        ] + opt_member(
            "tools"@,
            match tools {
                Some(ts) => Some(JsonV::Array(ts.map_values(|t| openai_tool_spec(t)))),
                None => None,
            },
        ) + opt_member(
            "tool_choice"@,
            match (tools, r.tool_choice) {
                (Some(_), Some(c)) => Some(openai_tool_choice_spec(c)),
                _ => None,
            },
        ) + seq![
            (
                "temperature"@,
                JsonV::Number(
                    match r.temperature {
                        Some(t) => t,
                        None => default_temperature(),
                    },
                ),
            ),
        ] + number_member("max_tokens"@, count_text(r.max_tokens)) + number_member(
            "top_p"@,
            r.top_p,
        ) + if stream {
            seq![("stream"@, JsonV::Bool(true))]
        } else {
            Seq::empty()
        },
    )
}

fn tool_call_to_openai(c: &ToolCall) -> (r: Json)
    ensures
        r.deep_view() == openai_tool_call_spec(c.deep_view()),
{
    let mut f: Vec<(String, Json)> = Vec::new();
    push_member(&mut f, "name", Json::Str(c.function.name.clone()));
    push_member(&mut f, "arguments", Json::Str(c.function.arguments.clone()));
    let mut m: Vec<(String, Json)> = Vec::new();
    push_member(&mut m, "id", Json::Str(c.id.clone()));
    push_member(&mut m, "type", jtext("function"));
    push_member(&mut m, "function", object(f));
    proof {
        assert(mview(f@) =~= seq![
            ("name"@, JsonV::Str(c.function.name@)),
            ("arguments"@, JsonV::Str(c.function.arguments@)),
        ]);
    }
    let r = object(m);
    proof {
        assert(mview(m@) =~= openai_tool_call_spec(c.deep_view())->Object_0);
    }
    r
}

/// The OpenAI form of a message.
pub fn chat_message_to_openai(m: &ChatMessage) -> (r: Json)
    ensures
        r.deep_view() == openai_message_spec(m.deep_view()),
{
    let mut members: Vec<(String, Json)> = Vec::new();
    push_member(&mut members, "role", jtext(role_str(m.role)));
    push_opt_str_member(&mut members, "content", &m.content);
    let calls: Option<Json> = match &m.tool_calls {
        Some(cs) => {
            let mut items: Vec<Json> = Vec::new();
            let mut i: usize = 0;
            while i < cs.len()
                invariant
                    0 <= i <= cs@.len(),
                    aview(items@) == cs.deep_view().take(i as int).map_values(
                        |c| openai_tool_call_spec(c),
                    ),
                decreases cs@.len() - i,
            {
                push_item(&mut items, tool_call_to_openai(&cs[i]));
                proof {
                    assert(cs.deep_view().take(i + 1).map_values(|c| openai_tool_call_spec(c))
                        =~= cs.deep_view().take(i as int).map_values(
                        |c| openai_tool_call_spec(c),
                    ).push(openai_tool_call_spec(cs@[i as int].deep_view())));
                }
                i = i + 1;
            }
            proof {
                assert(cs.deep_view().take(cs@.len() as int) =~= cs.deep_view());
            }
            Some(array(items))
        },
        None => None,
    };
    push_opt_member(&mut members, "tool_calls", calls);
    push_opt_str_member(&mut members, "tool_call_id", &m.tool_call_id);
    push_opt_str_member(&mut members, "name", &m.name);
    let r = object(members);
    proof {
        assert(mview(members@) =~= openai_message_spec(m.deep_view())->Object_0);
    }
    r
}

/// The OpenAI form of a tool definition.
pub fn tool_definition_to_openai(t: &ToolDefinition) -> (r: Json)
    ensures
        r.deep_view() == openai_tool_spec(t.deep_view()),
{
    let mut f: Vec<(String, Json)> = Vec::new();
    push_member(&mut f, "name", Json::Str(t.function.name.clone()));
    push_opt_str_member(&mut f, "description", &t.function.description);
    push_member(&mut f, "parameters", clone_json(&t.function.parameters));
    proof {
        assert(mview(f@) =~= seq![("name"@, JsonV::Str(t.function.name@))] + opt_str_member(
            "description"@,
            t.function.description.deep_view(),
        ) + seq![("parameters"@, t.function.parameters.deep_view())]);
    }
    let mut m: Vec<(String, Json)> = Vec::new();
    push_member(&mut m, "type", jtext("function"));
    push_member(&mut m, "function", object(f));
    let r = object(m);
    proof {
        assert(mview(m@) =~= openai_tool_spec(t.deep_view())->Object_0);
    }
    r
}

/// The OpenAI `tool_choice` value.
pub fn tool_choice_to_json(c: &ToolChoice) -> (r: Json)
    ensures
        r.deep_view() == openai_tool_choice_spec(c.deep_view()),
{
    match c {
        ToolChoice::Disabled => jtext("none"),
        ToolChoice::Auto => jtext("auto"),
        ToolChoice::Required => jtext("required"),
        ToolChoice::Tool(name) => {
            let mut f: Vec<(String, Json)> = Vec::new();
            push_member(&mut f, "name", Json::Str(name.clone()));
            proof {
                assert(mview(f@) =~= seq![("name"@, JsonV::Str(name@))]);
            }
            let mut m: Vec<(String, Json)> = Vec::new();
            push_member(&mut m, "type", jtext("function"));
            push_member(&mut m, "function", object(f));
            let r = object(m);
            proof {
                assert(mview(m@) =~= openai_tool_choice_spec(c.deep_view())->Object_0);
            }
            r
        },
    }
}

/// A JSON number member from its text.
fn push_number_member(members: &mut Vec<(String, Json)>, key: &str, n: Option<String>)
    ensures
        mview(final(members)@) == mview(old(members)@) + number_member(key@, n.deep_view()),
{
    match n {
        Some(t) => {
            push_member(members, key, Json::Number(t));
            proof {
                assert(mview(members@) =~= mview(old(members)@) + number_member(key@, n.deep_view()));
            }
        },
        None => {
            proof {
                assert(mview(members@) =~= mview(old(members)@) + number_member(key@, n.deep_view()));
            }
        },
    }
}

/// The decimal text of an optional count.
pub fn count_to_text(n: Option<u32>) -> (r: Option<String>)
    ensures
        r.deep_view() == count_text(n),
{
    match n {
        Some(k) => Some(usize_to_text(k as usize)),
        None => None,
    }
}

/// The tools of a request in OpenAI form, when there are any.
fn openai_tools(r: &ChatRequest) -> (out: Option<Json>)
    ensures
        out.deep_view() == match sent_tools(r.deep_view()) {
            Some(ts) => Some(JsonV::Array(ts.map_values(|t| openai_tool_spec(t)))),
            None => None,
        },
{
    match &r.tools {
        Some(ts) => {
            if ts.len() == 0 {
                return None;
            }
            let mut items: Vec<Json> = Vec::new();
            let mut i: usize = 0;
            while i < ts.len()
                invariant
                    0 <= i <= ts@.len(),
                    aview(items@) == ts.deep_view().take(i as int).map_values(
                        |t| openai_tool_spec(t),
                    ),
                decreases ts@.len() - i,
            {
                push_item(&mut items, tool_definition_to_openai(&ts[i]));
                proof {
                    assert(ts.deep_view().take(i + 1).map_values(|t| openai_tool_spec(t))
                        =~= ts.deep_view().take(i as int).map_values(
                        |t| openai_tool_spec(t),
                    ).push(openai_tool_spec(ts@[i as int].deep_view())));
                }
                i = i + 1;
            }
            proof {
                assert(ts.deep_view().take(ts@.len() as int) =~= ts.deep_view());
            }
            Some(array(items))
        },
        None => None,
    }
}

/// The body of `POST …/chat/completions` for `request`.
pub fn build_openai_body(model: &str, request: &ChatRequest, stream: bool) -> (r: Json)
    ensures
        r.deep_view() == openai_body_spec(model@, request.deep_view(), stream),
{
    let mut messages: Vec<Json> = Vec::new();
    let mut i: usize = 0;
    while i < request.messages.len()
        invariant
            0 <= i <= request.messages@.len(),
            aview(messages@) == request.messages.deep_view().take(i as int).map_values(
                |m| openai_message_spec(m),
            ),
        decreases request.messages@.len() - i,
    {
        push_item(&mut messages, chat_message_to_openai(&request.messages[i]));
        proof {
            assert(request.messages.deep_view().take(i + 1).map_values(
                |m| openai_message_spec(m),
            ) =~= request.messages.deep_view().take(i as int).map_values(
                |m| openai_message_spec(m),
            ).push(openai_message_spec(request.messages@[i as int].deep_view())));
        }
        i = i + 1;
    }
    proof {
        assert(request.messages.deep_view().take(request.messages@.len() as int)
            =~= request.messages.deep_view());
    }
    let tools = openai_tools(request);
    let choice: Option<Json> = if tools.is_some() {
        match &request.tool_choice {
            Some(c) => Some(tool_choice_to_json(c)),
            None => None,
        }
    } else {
        None
    };
    let temperature = match &request.temperature {
        Some(t) => t.clone(),
        None => "0.2".to_string(),
    };
    let mut members: Vec<(String, Json)> = Vec::new();
    push_member(&mut members, "model", Json::Str(model.to_string()));
    push_member(&mut members, "messages", array(messages));
    push_opt_member(&mut members, "tools", tools);
    push_opt_member(&mut members, "tool_choice", choice);
    push_member(&mut members, "temperature", Json::Number(temperature));
    push_number_member(&mut members, "max_tokens", count_to_text(request.max_tokens));
    push_number_member(&mut members, "top_p", clone_opt_string(&request.top_p));
    if stream {
        push_member(&mut members, "stream", Json::Bool(true));
    }
    let r = object(members);
    proof {
        assert(mview(members@) =~= openai_body_spec(model@, request.deep_view(), stream)->Object_0);
    }
    r
}

/// The URL of the Chat Completions endpoint under `base_url`.
pub fn openai_chat_url(base_url: &str) -> (r: String)
    ensures
        r@ == join_url_spec(base_url@, "/chat/completions"@),
{
    join_url(base_url, "/chat/completions")
}

/// The finish reasons of the OpenAI API (`end_turn`, which some compatible
/// gateways send, is a stop too).
pub open spec fn openai_finish_reason_spec(s: Seq<char>) -> Option<FinishReason> {
    if s == "stop"@ || s == "end_turn"@ {
        Some(FinishReason::Stop)
    } else if s == "length"@ {
        Some(FinishReason::Length)
    } else if s == "content_filter"@ {
        Some(FinishReason::ContentFilter)
    } else if s == "tool_calls"@ {
        Some(FinishReason::ToolCalls)
    } else {
        None
    }
}

pub fn map_openai_finish_reason(s: &str) -> (r: Option<FinishReason>)
    ensures
        r == openai_finish_reason_spec(s@),
{
    if str_eq(s, "stop") || str_eq(s, "end_turn") {
        Some(FinishReason::Stop)
    } else if str_eq(s, "length") {
        Some(FinishReason::Length)
    } else if str_eq(s, "content_filter") {
        Some(FinishReason::ContentFilter)
    } else if str_eq(s, "tool_calls") {
        Some(FinishReason::ToolCalls)
    } else {
        None
    }
}

/// The finish reason of a choice, when it is a known string.
pub open spec fn finish_reason_of(ch: JsonV) -> Option<FinishReason> {
    match jstr(jget(ch, "finish_reason"@)) {
        Some(s) => openai_finish_reason_spec(s),
        None => None,
    }
}

fn finish_reason_field(ch: &Json) -> (r: Option<FinishReason>)
    ensures
        r == finish_reason_of(ch.deep_view()),
{
    match as_str(field(ch, "finish_reason")) {
        Some(s) => map_openai_finish_reason(s.as_str()),
        None => None,
    }
}

/// A complete tool call: it needs a string `id` and a `function` with a
/// string `name`; `arguments` defaults to the empty text.
pub open spec fn openai_tool_call_of(item: JsonV) -> Option<ToolCallV> {
    match jstr(jget(item, "id"@)) {
        Some(id) => match jget(item, "function"@) {
            Some(func) => match jstr(jget(func, "name"@)) {
                Some(name) => Some(
                    ToolCallV {
                        id,
                        function: FunctionCallResultV {
                            name,
                            arguments: match jstr(jget(func, "arguments"@)) {
                                Some(a) => a,
                                None => Seq::empty(),
                            },
                        },
                    },
                ),
                None => None,
            },
            None => None,
        },
        None => None,
    }
}

/// The complete tool calls among `items`, in order; malformed ones are skipped.
pub open spec fn openai_tool_calls_in(items: Seq<JsonV>) -> Seq<ToolCallV>
    decreases items.len(),
{
    if items.len() == 0 {
        Seq::empty()
    } else {
        let prev = openai_tool_calls_in(items.drop_last());
        match openai_tool_call_of(items.last()) {
            Some(c) => prev.push(c),
            None => prev,
        }
    }
}

/// The tool calls of a message: `None` unless `v` is an array holding at
/// least one complete call.
pub open spec fn openai_tool_calls_spec(v: JsonV) -> Option<Seq<ToolCallV>> {
    match v {
        JsonV::Array(items) => {
            let out = openai_tool_calls_in(items);
            if out.len() > 0 {
                Some(out)
            } else {
                None
            }
        },
        _ => None,
    }
}

fn tool_call_from_json(item: &Json) -> (r: Option<ToolCall>)
    ensures
        r.deep_view() == openai_tool_call_of(item.deep_view()),
{
    let id = match as_str(field(item, "id")) {
        Some(s) => s,
        None => return None,
    };
    let func = match field(item, "function") {
        Some(f) => f,
        None => return None,
    };
    let name = match as_str(field(func, "name")) {
        Some(s) => s,
        None => return None,
    };
    let arguments = match as_str(field(func, "arguments")) {
        Some(a) => a.clone(),
        None => String::new(),
    };
    Some(
        ToolCall {
            id: id.clone(),
            function: FunctionCallResult { name: name.clone(), arguments },
        },
    )
}

/// The complete tool calls in a `tool_calls` value.
pub fn parse_tool_calls_from_json(v: &Json) -> (r: Option<Vec<ToolCall>>)
    ensures
        r.deep_view() == openai_tool_calls_spec(v.deep_view()),
{
    let arr = match as_array(Some(v)) {
        Some(a) => a,
        None => return None,
    };
    let ghost items = arr.deep_view();
    let mut out: Vec<ToolCall> = Vec::new();
    let mut i: usize = 0;
    while i < arr.len()
        invariant
            items == arr.deep_view(),
            0 <= i <= arr@.len(),
            out.deep_view() == openai_tool_calls_in(items.take(i as int)),
        decreases arr@.len() - i,
    {
        let c = tool_call_from_json(&arr[i]);
        proof {
            assert(items.take(i + 1).drop_last() =~= items.take(i as int));
            assert(items.take(i + 1).last() == arr@[i as int].deep_view());
        }
        match c {
            Some(call) => {
                out.push(call);
                proof {
                    assert(out.deep_view() =~= openai_tool_calls_in(items.take(i + 1)));
                }
            },
            None => {},
        }
        i = i + 1;
    }
    proof {
        assert(items.take(arr@.len() as int) =~= items);
    }
    if out.len() > 0 {
        Some(out)
    } else {
        None
    }
}

/// The answer of a non-stream call: the first choice's message text, tool
/// calls and finish reason. `choices` must be an array with a first element
/// that has a `message`.
pub open spec fn openai_response_spec(v: JsonV) -> Result<ChatResponseV, ErrorV> {
    match jarr(jget(v, "choices"@)) {
        None => Err(ErrorV::MissingField("choices"@)),
        Some(choices) => if choices.len() == 0 {
            Err(ErrorV::MissingField("choices[0]"@))
        } else {
            let ch = choices[0];
            match jget(ch, "message"@) {
                None => Err(ErrorV::MissingField("choices[0].message"@)),
                Some(message) => Ok(
                    ChatResponseV {
                        content: jstr(jget(message, "content"@)),
                        tool_calls: match jget(message, "tool_calls"@) {
                            Some(t) => openai_tool_calls_spec(t),
                            None => None,
                        },
                        finish_reason: finish_reason_of(ch),
                    },
                ),
            }
        },
    }
}

/// Reads the answer of a non-stream call.
pub fn parse_openai_chat_response(v: &Json) -> (r: Result<ChatResponse, Error>)
    ensures
        crate::error::result_view(r) == openai_response_spec(v.deep_view()),
{
    let choices = match as_array(field(v, "choices")) {
        Some(c) => c,
        None => return Err(Error::MissingField("choices")),
    };
    if choices.len() == 0 {
        return Err(Error::MissingField("choices[0]"));
    }
    let ch = &choices[0];
    let message = match field(ch, "message") {
        Some(m) => m,
        None => return Err(Error::MissingField("choices[0].message")),
    };
    let content = match as_str(field(message, "content")) {
        Some(s) => Some(s.clone()),
        None => None,
    };
    let tool_calls = match field(message, "tool_calls") {
        Some(t) => parse_tool_calls_from_json(t),
        None => None,
    };
    let finish_reason = finish_reason_field(ch);
    Ok(ChatResponse { content, tool_calls, finish_reason })
}

/// A piece of a streamed tool call: `index` (0 when absent, cut to 32 bits),
/// `id`, `function.name` and `function.arguments`; an item with none of the
/// last three is skipped.
pub open spec fn openai_delta_of(item: JsonV) -> Option<ToolCallDeltaV> {
    let index: u32 = match ju64(jget(item, "index"@)) {
        Some(n) => (n as u64) as u32,
        None => 0,
    };
    let id = jstr(jget(item, "id"@));
    let func = jget(item, "function"@);
    let name = jstr(oget(func, "name"@));
    let args = jstr(oget(func, "arguments"@));
    if id is None && name is None && args is None {
        None
    } else {
        Some(ToolCallDeltaV { index, id, function_name: name, function_arguments: args })
    }
}

pub open spec fn openai_deltas_in(items: Seq<JsonV>) -> Seq<ToolCallDeltaV>
    decreases items.len(),
{
    if items.len() == 0 {
        Seq::empty()
    } else {
        let prev = openai_deltas_in(items.drop_last());
        match openai_delta_of(items.last()) {
            Some(d) => prev.push(d),
            None => prev,
        }
    }
}

/// The tool-call pieces of a stream delta: `None` unless `v` is an array
/// with at least one piece.
pub open spec fn openai_deltas_spec(v: JsonV) -> Option<Seq<ToolCallDeltaV>> {
    match v {
        JsonV::Array(items) => {
            let out = openai_deltas_in(items);
            if out.len() > 0 {
                Some(out)
            } else {
                None
            }
        },
        _ => None,
    }
}

fn delta_from_json(item: &Json) -> (r: Option<ToolCallDelta>)
    ensures
        r.deep_view() == openai_delta_of(item.deep_view()),
{
    let index: u32 = match as_u64(field(item, "index")) {
        Some(n) => n as u32,
        None => 0,
    };
    let id = match as_str(field(item, "id")) {
        Some(s) => Some(s.clone()),
        None => None,
    };
    let func = field(item, "function");
    let name = match as_str(field_opt(func, "name")) {
        Some(s) => Some(s.clone()),
        None => None,
    };
    let args = match as_str(field_opt(func, "arguments")) {
        Some(s) => Some(s.clone()),
        None => None,
    };
    if id.is_none() && name.is_none() && args.is_none() {
        return None;
    }
    Some(ToolCallDelta { index, id, function_name: name, function_arguments: args })
}

/// The tool-call pieces of a stream delta.
pub fn parse_delta_tool_calls(v: &Json) -> (r: Option<Vec<ToolCallDelta>>)
    ensures
        r.deep_view() == openai_deltas_spec(v.deep_view()),
{
    let arr = match as_array(Some(v)) {
        Some(a) => a,
        None => return None,
    };
    let ghost items = arr.deep_view();
    let mut out: Vec<ToolCallDelta> = Vec::new();
    let mut i: usize = 0;
    while i < arr.len()
        invariant
            items == arr.deep_view(),
            0 <= i <= arr@.len(),
            out.deep_view() == openai_deltas_in(items.take(i as int)),
        decreases arr@.len() - i,
    {
        let d = delta_from_json(&arr[i]);
        proof {
            assert(items.take(i + 1).drop_last() =~= items.take(i as int));
            assert(items.take(i + 1).last() == arr@[i as int].deep_view());
        }
        match d {
            Some(x) => {
                out.push(x);
                proof {
                    assert(out.deep_view() =~= openai_deltas_in(items.take(i + 1)));
                }
            },
            None => {},
        }
        i = i + 1;
    }
    proof {
        assert(items.take(arr@.len() as int) =~= items);
    }
    if out.len() > 0 {
        Some(out)
    } else {
        None
    }
}

/// The chunk a parsed stream payload carries: the first choice's `delta`
/// (text and tool-call pieces) and its finish reason; nothing when there is
/// no first choice with a `delta`, or when all three are absent.
pub open spec fn openai_chunk_of(v: JsonV) -> Option<ChatChunkV> {
    match jarr(jget(v, "choices"@)) {
        Some(choices) => if choices.len() == 0 {
            None
        } else {
            let ch = choices[0];
            match jget(ch, "delta"@) {
                Some(delta) => {
                    let text = jstr(jget(delta, "content"@));
                    let deltas = match jget(delta, "tool_calls"@) {
                        Some(t) => openai_deltas_spec(t),
                        None => None,
                    };
                    let finish = finish_reason_of(ch);
                    if text is None && deltas is None && finish is None {
                        None
                    } else {
                        Some(ChatChunkV { delta: text, tool_call_deltas: deltas, finish_reason: finish })
                    }
                },
                None => None,
            }
        },
        None => None,
    }
}

/// What one stream event yields: nothing for an empty payload or `[DONE]`;
/// `Parse` for a payload that is not JSON; otherwise the chunk it carries.
pub open spec fn openai_event_spec(ev: SseEventV) -> Option<Result<ChatChunkV, ErrorV>> {
    let data = trim_spec(ev.data);
    if data.len() == 0 || data == "[DONE]"@ {
        None
    } else {
        match serde_json_read(data) {
            Err(m) => Some(Err(ErrorV::Parse(m))),
            Ok(v) => match openai_chunk_of(v) {
                Some(c) => Some(Ok(c)),
                None => None,
            },
        }
    }
}

pub open spec fn opt_result_view(r: Option<Result<ChatChunk, Error>>) -> Option<Result<ChatChunkV, ErrorV>> {
    match r {
        Some(x) => Some(crate::error::result_view(x)),
        None => None,
    }
}

fn openai_chunk_from_json(v: &Json) -> (r: Option<ChatChunk>)
    ensures
        r.deep_view() == openai_chunk_of(v.deep_view()),
{
    let choices = match as_array(field(v, "choices")) {
        Some(c) => c,
        None => return None,
    };
    if choices.len() == 0 {
        return None;
    }
    let ch = &choices[0];
    let delta = match field(ch, "delta") {
        Some(d) => d,
        None => return None,
    };
    let text = match as_str(field(delta, "content")) {
        Some(s) => Some(s.clone()),
        None => None,
    };
    let deltas = match field(delta, "tool_calls") {
        Some(t) => parse_delta_tool_calls(t),
        None => None,
    };
    let finish = finish_reason_field(ch);
    if text.is_none() && deltas.is_none() && finish.is_none() {
        return None;
    }
    Some(ChatChunk { delta: text, tool_call_deltas: deltas, finish_reason: finish })
}

/// Reads one stream event.
pub fn openai_parse_sse_event(ev: SseEvent) -> (r: Option<Result<ChatChunk, Error>>)
    ensures
        opt_result_view(r) == openai_event_spec(ev.deep_view()),
{
    let data = str_trim(ev.data.as_str());
    if data.unicode_len() == 0 || str_eq(data, "[DONE]") {
        return None;
    }
    match read_json(data) {
        Err(m) => Some(Err(Error::Parse(m))),
        Ok(v) => match openai_chunk_from_json(&v) {
            Some(c) => Some(Ok(c)),
            None => None,
        },
    }
}

/// One item of the event stream: a transport error passes through, an event
/// is read.
pub fn openai_sse_item_to_chunk(item: Result<SseEvent, Error>) -> (r: Option<
    Result<ChatChunk, Error>,
>)
    ensures
        match item {
            Err(e) => r matches Some(Err(e2)) && e2.deep_view() == e.deep_view(),
            Ok(ev) => opt_result_view(r) == openai_event_spec(ev.deep_view()),
        },
{
    match item {
        Err(e) => Some(Err(e)),
        Ok(ev) => openai_parse_sse_event(ev),
    }
}

/// In the body, every message that answers a tool call carries that call's
/// id as `tool_call_id`, and its text as `content`, at the message's own
/// position among `messages`.
pub proof fn lemma_openai_tool_result_names_its_call(
    model: Seq<char>,
    r: ChatRequestV,
    stream: bool,
    i: int,
)
    requires
        0 <= i < r.messages.len(),
        r.messages[i].tool_call_id is Some,
    ensures
        match jget(openai_body_spec(model, r, stream), "messages"@) {
            Some(JsonV::Array(a)) => a.len() == r.messages.len() && jget(a[i], "tool_call_id"@)
                == Some(JsonV::Str(r.messages[i].tool_call_id->Some_0)) && (
            r.messages[i].content matches Some(c) ==> jget(a[i], "content"@) == Some(
                JsonV::Str(c),
            )),
            _ => false,
        },
{
    reveal_strlit("model");
    reveal_strlit("messages");
    reveal_strlit("role");
    reveal_strlit("content");
    reveal_strlit("tool_calls");
    reveal_strlit("tool_call_id");
    let m = r.messages[i];
    let body = openai_body_spec(model, r, stream)->Object_0;
    assert(body[0].0 == "model"@);
    assert(body[1].0 == "messages"@);
    assert("model"@ != "messages"@) by {
        assert("model"@.len() != "messages"@.len());
    }
    let a = body[1].1->Array_0;
    assert(a.len() == r.messages.len() && a[i] == openai_message_spec(m));
    assert(body =~= seq![body[0]] + body.drop_first());
    lemma_member_after(seq![body[0]], body.drop_first(), "messages"@);
    let id = m.tool_call_id->Some_0;
    let head = seq![("role"@, JsonV::Str(role_name(m.role)))] + opt_str_member("content"@, m.content)
        + opt_member(
        "tool_calls"@,
        match m.tool_calls {
            Some(cs) => Some(JsonV::Array(cs.map_values(|c| openai_tool_call_spec(c)))),
            None => None,
        },
    );
    let tail = opt_str_member("tool_call_id"@, m.tool_call_id) + opt_str_member("name"@, m.name);
    assert(openai_message_spec(m)->Object_0 == head + tail);
    assert("role"@ != "tool_call_id"@) by {
        assert("role"@.len() != "tool_call_id"@.len());
    }
    assert("content"@ != "tool_call_id"@) by {
        assert("content"@.len() != "tool_call_id"@.len());
    }
    assert("tool_calls"@ != "tool_call_id"@) by {
        assert("tool_calls"@[9] != "tool_call_id"@[9]);
    }
    assert forall|j: int| 0 <= j < head.len() implies #[trigger] head[j].0 != "tool_call_id"@ by {
        if j == 0 {
        } else if m.content is Some && j == 1 {
        } else {
        }
    }
    lemma_member_after(head, tail, "tool_call_id"@);
    assert(tail[0] == ("tool_call_id"@, JsonV::Str(id)));
    assert(jget(a[i], "tool_call_id"@) == Some(JsonV::Str(id)));
    assert(jget(openai_body_spec(model, r, stream), "messages"@) == Some(JsonV::Array(a)));
    match m.content {
        Some(c) => {
            let h0 = seq![("role"@, JsonV::Str(role_name(m.role)))];
            assert(head + tail =~= h0 + (seq![("content"@, JsonV::Str(c))] + (head.skip(2) + tail)));
            assert("role"@ != "content"@) by {
                assert("role"@.len() != "content"@.len());
            }
            let rest = seq![("content"@, JsonV::Str(c))] + (head.skip(2) + tail);
            lemma_member_after(h0, rest, "content"@);
            assert(rest[0] == ("content"@, JsonV::Str(c)));
            assert(member_spec(rest, "content"@) == Some(JsonV::Str(c)));
            assert(member_spec(openai_message_spec(m)->Object_0, "content"@) == Some(JsonV::Str(c)));
            assert(jget(a[i], "content"@) == Some(JsonV::Str(c)));
        },
        None => {},
    }
}

} // verus!
