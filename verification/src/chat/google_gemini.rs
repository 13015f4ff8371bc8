//! Google Gemini (`POST {base_url}/models/{model}:generateContent` and
//! `:streamGenerateContent`): the request body (`contents`,
//! `systemInstruction`, `functionDeclarations`), the reading of the answer
//! and of the streamed payloads.

use vstd::prelude::*;

use crate::chat::anthropic_compat::{empty_object, text_or_empty, tool_input};
use crate::chat::openai_compat::{count_text, sent_tools};
use crate::chat::types::{
    ChatChunk, ChatChunkV, ChatMessage, ChatMessageV, ChatRequest, ChatRequestV, ChatResponse,
    ChatResponseV, FinishReason, FunctionCallResult, FunctionCallResultV, FunctionDefinitionV, Role,
    ToolCall, ToolCallDelta, ToolCallDeltaV, ToolCallV, ToolChoice, ToolChoiceV, ToolDefinition,
};
use crate::error::{result_view, Error, ErrorV};
use crate::json::{
    array, as_array, as_str, aview, clone_json, field, jarr, jget, jstr, jtext, mview, object,
    opt_member, push_item, push_member, push_opt_member, read_json, serde_json_read,
    serde_json_write, write_json, Json, JsonV,
};
use crate::sse::{SseEvent, SseEventV};
use crate::text::{
    decimal_text, join_spec, join_strings, join_url, join_url_spec, lemma_decimal_text_injective,
    str_eq, str_trim, trim_spec, usize_to_text,
};

verus! {

pub open spec fn text_part(t: Seq<char>) -> JsonV {
    JsonV::Object(seq![("text"@, JsonV::Str(t))])
}

pub open spec fn gemini_content(role: Seq<char>, parts: Seq<JsonV>) -> JsonV {
    JsonV::Object(seq![("role"@, JsonV::Str(role)), ("parts"@, JsonV::Array(parts))])
}

pub open spec fn function_call_part(c: ToolCallV) -> JsonV {
    JsonV::Object(
        seq![
            (
                "functionCall"@,
                JsonV::Object(
                    seq![
                        ("name"@, JsonV::Str(c.function.name)),
                        ("args"@, tool_input(c.function.arguments)),
                    ],
                ),
            ),
        ],
    )
}

pub open spec fn calls_of(m: ChatMessageV) -> Seq<ToolCallV> {
    match m.tool_calls {
        Some(cs) => cs,
        None => Seq::empty(),
    }
}

pub open spec fn nonempty_text_parts(content: Option<Seq<char>>) -> Seq<JsonV> {
    match content {
        Some(t) => if t.len() > 0 {
            seq![text_part(t)]
        } else {
            Seq::empty()
        },
        None => Seq::empty(),
    }
}

/// The parts of an assistant (`model`) turn: a non-empty text, then one
/// `functionCall` per tool call (arguments read as JSON, an empty object when
/// they are not); a single empty text part when there is neither.
pub open spec fn model_parts_spec(m: ChatMessageV) -> Seq<JsonV> {
    let parts = nonempty_text_parts(m.content) + calls_of(m).map_values(|c| function_call_part(c));
    if parts.len() == 0 {
        seq![text_part(Seq::empty())]
    } else {
        parts
    }
}

/// The `response` of a `functionResponse`: the tool output read as JSON
/// (`{}` when absent), or `{"result": output}` when it is not JSON.
pub open spec fn tool_response_spec(content: Option<Seq<char>>) -> JsonV {
    let raw = match content {
        Some(c) => c,
        None => "{}"@,
    };
    match serde_json_read(raw) {
        Ok(v) => v,
        Err(_) => JsonV::Object(seq![("result"@, JsonV::Str(raw))]),
    }
}

pub open spec fn function_response_content(name: Seq<char>, response: JsonV) -> JsonV {
    gemini_content(
        "user"@,
        seq![
            JsonV::Object(
                seq![
                    (
                        "functionResponse"@,
                        JsonV::Object(seq![("name"@, JsonV::Str(name)), ("response"@, response)]),
                    ),
                ],
            ),
        ],
    )
}

/// A non-empty tool name.
pub open spec fn tool_name(m: ChatMessageV) -> Option<Seq<char>> {
    match m.name {
        Some(n) => if n.len() > 0 {
            Some(n)
        } else {
            None
        },
        None => None,
    }
}

/// What one message adds: a system text, a content, or an error.
pub open spec fn gemini_message_step(acc: (Seq<Seq<char>>, Seq<JsonV>), m: ChatMessageV) -> Result<
    (Seq<Seq<char>>, Seq<JsonV>),
    ErrorV,
> {
    match m.role {
        Role::System => match m.content {
            Some(c) => if c.len() > 0 {
                Ok((acc.0.push(c), acc.1))
            } else {
                Ok(acc)
            },
            None => Ok(acc),
        },
        Role::User => match m.content {
            Some(c) => Ok((acc.0, acc.1.push(gemini_content("user"@, seq![text_part(c)])))),
            None => Err(ErrorV::MissingField("user.content"@)),
        },
        Role::Assistant => Ok((acc.0, acc.1.push(gemini_content("model"@, model_parts_spec(m))))),
        Role::Tool => match tool_name(m) {
            Some(n) => Ok(
                (acc.0, acc.1.push(function_response_content(n, tool_response_spec(m.content)))),
            ),
            None => Err(ErrorV::MissingField("tool.name"@)),
        },
    }
}

/// The system texts and the `contents` of a conversation, in order; the first
/// malformed message gives its error.
pub open spec fn gemini_messages_spec(msgs: Seq<ChatMessageV>) -> Result<
    (Seq<Seq<char>>, Seq<JsonV>),
    ErrorV,
>
    decreases msgs.len(),
{
    if msgs.len() == 0 {
        Ok((Seq::empty(), Seq::empty()))
    } else {
        match gemini_messages_spec(msgs.drop_last()) {
            Err(e) => Err(e),
            Ok(acc) => gemini_message_step(acc, msgs.last()),
        }
    }
}

/// `systemInstruction`: one text part with the system texts joined by a blank
/// line; absent when there are none.
pub open spec fn system_instruction_spec(parts: Seq<Seq<char>>) -> Option<JsonV> {
    if parts.len() == 0 {
        None
    } else {
        Some(JsonV::Object(seq![("parts"@, JsonV::Array(seq![text_part(join_spec(parts, "\n\n"@))]))]))
    }
}

pub open spec fn function_declaration(f: FunctionDefinitionV) -> JsonV {
    JsonV::Object(
        seq![
            ("name"@, JsonV::Str(f.name)),
            (
                "description"@,
                match f.description {
                    Some(d) => JsonV::Str(d),
                    None => JsonV::Null,
                },
            ),
            ("parameters"@, f.parameters),
        ],
    )
}

pub open spec fn function_calling_config_spec(c: ToolChoiceV) -> JsonV {
    match c {
        ToolChoiceV::Disabled => JsonV::Object(seq![("mode"@, JsonV::Str("NONE"@))]),
        ToolChoiceV::Auto => JsonV::Object(seq![("mode"@, JsonV::Str("AUTO"@))]),
        ToolChoiceV::Required => JsonV::Object(seq![("mode"@, JsonV::Str("ANY"@))]),
        ToolChoiceV::Tool(name) => JsonV::Object(
            seq![
                ("mode"@, JsonV::Str("ANY"@)),
                ("allowedFunctionNames"@, JsonV::Array(seq![JsonV::Str(name)])),
            ],
        ),
    }
}

pub open spec fn gemini_tools_value(r: ChatRequestV) -> Option<JsonV> {
    match sent_tools(r) {
        Some(ts) => Some(
            JsonV::Array(
                seq![
                    JsonV::Object(
                        seq![
                            (
                                "functionDeclarations"@,
                                JsonV::Array(ts.map_values(|t| function_declaration(t))),
                            ),
                        ],
                    ),
                ],
            ),
        ),
        None => None,
    }
}

pub open spec fn gemini_tool_config_value(r: ChatRequestV) -> Option<JsonV> {
    match (sent_tools(r), r.tool_choice) {
        (Some(_), Some(c)) => Some(
            JsonV::Object(seq![("functionCallingConfig"@, function_calling_config_spec(c))]),
        ),
        _ => None,
    }
}

pub open spec fn number_member(key: Seq<char>, n: Option<Seq<char>>) -> Seq<(Seq<char>, JsonV)> {
    match n {
        Some(t) => seq![(key, JsonV::Number(t))],
        None => Seq::empty(),
    }
}

pub open spec fn temperature_or_default(r: ChatRequestV) -> Seq<char> {
    match r.temperature {
        Some(t) => t,
        None => "0.2"@,
    }
}

/// `generationConfig`: `temperature` (`0.2` when unset), `maxOutputTokens`,
/// `topP`.
pub open spec fn generation_config_spec(r: ChatRequestV) -> JsonV {
    JsonV::Object(
        seq![("temperature"@, JsonV::Number(temperature_or_default(r)))] + number_member(
            "maxOutputTokens"@,
            count_text(r.max_tokens),
        ) + number_member("topP"@, r.top_p),
    )
}

/// The members of the request body.
pub open spec fn gemini_members(r: ChatRequestV, parts: Seq<Seq<char>>, contents: Seq<JsonV>) -> Seq<
    (Seq<char>, JsonV),
> {
    seq![
        ("contents"@, JsonV::Array(contents)),
        ("generationConfig"@, generation_config_spec(r)),
    ] + opt_member("systemInstruction"@, system_instruction_spec(parts)) + opt_member(
        "tools"@,
        gemini_tools_value(r),
    ) + opt_member("toolConfig"@, gemini_tool_config_value(r))
}

/// The body of `generateContent` / `streamGenerateContent`.
pub open spec fn gemini_body_spec(r: ChatRequestV) -> Result<JsonV, ErrorV> {
    match gemini_messages_spec(r.messages) {
        Err(e) => Err(e),
        Ok(pc) => Ok(JsonV::Object(gemini_members(r, pc.0, pc.1))),
    }
}

fn text_part_json(t: String) -> (r: Json)
    ensures
        r.deep_view() == text_part(t@),
{
    let mut m: Vec<(String, Json)> = Vec::new();
    push_member(&mut m, "text", Json::Str(t));
    let r = object(m);
    proof {
        assert(mview(m@) =~= text_part(t@)->Object_0);
    }
    r
}

fn gemini_content_json(role: &str, parts: Vec<Json>) -> (r: Json)
    ensures
        r.deep_view() == gemini_content(role@, aview(parts@)),
{
    let mut m: Vec<(String, Json)> = Vec::new();
    push_member(&mut m, "role", jtext(role));
    push_member(&mut m, "parts", array(parts));
    let r = object(m);
    proof {
        assert(mview(m@) =~= gemini_content(role@, aview(parts@))->Object_0);
    }
    r
}

fn function_call_part_json(c: &ToolCall) -> (r: Json)
    ensures
        r.deep_view() == function_call_part(c.deep_view()),
{
    let args = match read_json(c.function.arguments.as_str()) {
        Ok(v) => v,
        Err(_) => object(Vec::new()),
    };
    proof {
        assert(mview(Seq::<(String, Json)>::empty()) =~= Seq::<(Seq<char>, JsonV)>::empty());
    }
    let mut f: Vec<(String, Json)> = Vec::new();
    push_member(&mut f, "name", Json::Str(c.function.name.clone()));
    push_member(&mut f, "args", args);
    let fc = object(f);
    let mut m: Vec<(String, Json)> = Vec::new();
    push_member(&mut m, "functionCall", fc);
    let r = object(m);
    proof {
        assert(mview(f@) =~= seq![
            ("name"@, JsonV::Str(c.function.name@)),
            ("args"@, tool_input(c.function.arguments@)),
        ]);
        assert(mview(m@) =~= function_call_part(c.deep_view())->Object_0);
    }
    r
}

/// The parts of an assistant turn.
pub fn gemini_model_parts(m: &ChatMessage) -> (r: Vec<Json>)
    ensures
        aview(r@) == model_parts_spec(m.deep_view()),
{
    let mut parts: Vec<Json> = Vec::new();
    match &m.content {
        Some(t) => {
            if t.as_str().unicode_len() > 0 {
                push_item(&mut parts, text_part_json(t.clone()));
            }
        },
        None => {},
    }
    let ghost first = aview(parts@);
    proof {
        assert(first =~= nonempty_text_parts(m.deep_view().content));
    }
    match &m.tool_calls {
        Some(calls) => {
            let ghost cs = calls.deep_view();
            let mut i: usize = 0;
            while i < calls.len()
                invariant
                    cs == calls.deep_view(),
                    0 <= i <= calls@.len(),
                    aview(parts@) == first + cs.take(i as int).map_values(
                        |c| function_call_part(c),
                    ),
                decreases calls@.len() - i,
            {
                push_item(&mut parts, function_call_part_json(&calls[i]));
                proof {
                    assert(cs.take(i + 1).map_values(|c| function_call_part(c)) =~= cs.take(
                        i as int,
                    ).map_values(|c| function_call_part(c)).push(function_call_part(cs[i as int])));
                    assert(aview(parts@) =~= first + cs.take(i + 1).map_values(
                        |c| function_call_part(c),
                    ));
                }
                i = i + 1;
            }
            proof {
                assert(cs.take(calls@.len() as int) =~= cs);
            }
        },
        None => {
            proof {
                assert(aview(parts@) =~= first + calls_of(m.deep_view()).map_values(
                    |c| function_call_part(c),
                ));
            }
        },
    }
    if parts.len() == 0 {
        push_item(&mut parts, text_part_json(String::new()));
        proof {
            assert(aview(parts@) =~= seq![text_part(Seq::<char>::empty())]);
        }
    }
    parts
}

/// The `response` of a tool message.
pub fn tool_message_to_gemini_response(m: &ChatMessage) -> (r: Json)
    ensures
        r.deep_view() == tool_response_spec(m.deep_view().content),
{
    proof {
        reveal_strlit("{}");
    }
    let raw: String = match &m.content {
        Some(c) => c.clone(),
        None => "{}".to_string(),
    };
    match read_json(raw.as_str()) {
        Ok(v) => v,
        Err(_) => {
            let mut o: Vec<(String, Json)> = Vec::new();
            push_member(&mut o, "result", Json::Str(raw));
            let r = object(o);
            proof {
                assert(mview(o@) =~= seq![("result"@, JsonV::Str(raw@))]);
            }
            r
        },
    }
}

fn function_response_json(name: String, response: Json) -> (r: Json)
    ensures
        r.deep_view() == function_response_content(name@, response.deep_view()),
{
    let mut fr: Vec<(String, Json)> = Vec::new();
    push_member(&mut fr, "name", Json::Str(name));
    push_member(&mut fr, "response", response);
    let fr_obj = object(fr);
    let mut p: Vec<(String, Json)> = Vec::new();
    push_member(&mut p, "functionResponse", fr_obj);
    let part = object(p);
    let mut parts: Vec<Json> = Vec::new();
    proof {
        assert(aview(parts@) =~= Seq::<JsonV>::empty());
    }
    push_item(&mut parts, part);
    proof {
        assert(mview(fr@) =~= seq![("name"@, JsonV::Str(name@)), ("response"@, response.deep_view())]);
        assert(mview(p@) =~= seq![("functionResponse"@, fr_obj.deep_view())]);
        assert(aview(parts@) =~= seq![part.deep_view()]);
    }
    gemini_content_json("user", parts)
}

proof fn lemma_gemini_error_persists(ms: Seq<ChatMessageV>, i: int)
    requires
        0 <= i <= ms.len(),
        gemini_messages_spec(ms.take(i)) is Err,
    ensures
        gemini_messages_spec(ms) == gemini_messages_spec(ms.take(i)),
    decreases ms.len() - i,
{
    if i < ms.len() {
        assert(ms.take(i + 1).drop_last() =~= ms.take(i));
        lemma_gemini_error_persists(ms, i + 1);
    } else {
        assert(ms.take(i) =~= ms);
    }
}

/// The system texts and the `contents` of a conversation.
pub fn gemini_contents_from_chat(request: &ChatRequest) -> (r: Result<(Vec<String>, Vec<Json>), Error>)
    ensures
        match gemini_messages_spec(request.deep_view().messages) {
            Ok(pc) => r matches Ok((p, c)) && p.deep_view() == pc.0 && aview(c@) == pc.1,
            Err(e) => r matches Err(e2) && e2.deep_view() == e,
        },
{
    let msgs = &request.messages;
    let mut system_parts: Vec<String> = Vec::new();
    let mut contents: Vec<Json> = Vec::new();
    let ghost ms = msgs.deep_view();
    let mut i: usize = 0;
    proof {
        assert(ms.take(0) =~= Seq::<ChatMessageV>::empty());
        assert(system_parts.deep_view() =~= Seq::<Seq<char>>::empty());
        assert(aview(contents@) =~= Seq::<JsonV>::empty());
    }
    while i < msgs.len()
        invariant
            ms == msgs.deep_view(),
            ms == request.deep_view().messages,
            0 <= i <= msgs@.len(),
            gemini_messages_spec(ms.take(i as int)) == Ok::<(Seq<Seq<char>>, Seq<JsonV>), ErrorV>(
                (system_parts.deep_view(), aview(contents@)),
            ),
        decreases msgs@.len() - i,
    {
        let m = &msgs[i];
        proof {
            assert(ms.take(i + 1).drop_last() =~= ms.take(i as int));
            assert(ms.take(i + 1).last() == m.deep_view());
        }
        match m.role {
            Role::System => {
                match &m.content {
                    Some(c) => {
                        if c.as_str().unicode_len() > 0 {
                            system_parts.push(c.clone());
                        }
                    },
                    None => {},
                }
            },
            Role::User => {
                match &m.content {
                    Some(c) => {
                        let mut parts: Vec<Json> = Vec::new();
                        proof {
                            assert(aview(parts@) =~= Seq::<JsonV>::empty());
                        }
                        push_item(&mut parts, text_part_json(c.clone()));
                        proof {
                            assert(aview(parts@) =~= seq![text_part(c@)]);
                        }
                        push_item(&mut contents, gemini_content_json("user", parts));
                    },
                    None => {
                        proof {
                            lemma_gemini_error_persists(ms, i + 1);
                        }
                        return Err(Error::MissingField("user.content"));
                    },
                }
            },
            Role::Assistant => {
                push_item(&mut contents, gemini_content_json("model", gemini_model_parts(m)));
            },
            Role::Tool => {
                let name = match &m.name {
                    Some(n) => {
                        if n.as_str().unicode_len() > 0 {
                            Some(n.clone())
                        } else {
                            None
                        }
                    },
                    None => None,
                };
                match name {
                    Some(n) => {
                        let response = tool_message_to_gemini_response(m);
                        push_item(&mut contents, function_response_json(n, response));
                    },
                    None => {
                        proof {
                            lemma_gemini_error_persists(ms, i + 1);
                        }
                        return Err(Error::MissingField("tool.name"));
                    },
                }
            },
        }
        proof {
            let next = gemini_messages_spec(ms.take(i + 1));
            assert(next is Ok);
            assert(system_parts.deep_view() =~= next->Ok_0.0);
            assert(aview(contents@) =~= next->Ok_0.1);
        }
        i = i + 1;
    }
    proof {
        assert(ms.take(msgs@.len() as int) =~= ms);
    }
    Ok((system_parts, contents))
}

/// The `functionCallingConfig` of a tool choice.
pub fn gemini_function_calling_config(tc: &ToolChoice) -> (r: Json)
    ensures
        r.deep_view() == function_calling_config_spec(tc.deep_view()),
{
    let mut m: Vec<(String, Json)> = Vec::new();
    match tc {
        ToolChoice::Disabled => {
            push_member(&mut m, "mode", jtext("NONE"));
        },
        ToolChoice::Auto => {
            push_member(&mut m, "mode", jtext("AUTO"));
        },
        ToolChoice::Required => {
            push_member(&mut m, "mode", jtext("ANY"));
        },
        ToolChoice::Tool(name) => {
            push_member(&mut m, "mode", jtext("ANY"));
            let mut names: Vec<Json> = Vec::new();
            proof {
                assert(aview(names@) =~= Seq::<JsonV>::empty());
            }
            push_item(&mut names, Json::Str(name.clone()));
            proof {
                assert(aview(names@) =~= seq![JsonV::Str(name@)]);
            }
            push_member(&mut m, "allowedFunctionNames", array(names));
        },
    }
    let r = object(m);
    proof {
        assert(mview(m@) =~= function_calling_config_spec(tc.deep_view())->Object_0);
    }
    r
}

fn function_declaration_json(t: &ToolDefinition) -> (r: Json)
    ensures
        r.deep_view() == function_declaration(t.deep_view()),
{
    let desc = match &t.function.description {
        Some(d) => Json::Str(d.clone()),
        None => Json::Null,
    };
    let mut m: Vec<(String, Json)> = Vec::new();
    push_member(&mut m, "name", Json::Str(t.function.name.clone()));
    push_member(&mut m, "description", desc);
    push_member(&mut m, "parameters", clone_json(&t.function.parameters));
    let r = object(m);
    proof {
        assert(mview(m@) =~= function_declaration(t.deep_view())->Object_0);
    }
    r
}

fn gemini_tools_json(r: &ChatRequest) -> (out: Option<Json>)
    ensures
        out.deep_view() == gemini_tools_value(r.deep_view()),
{
    let ts = match &r.tools {
        Some(ts) => ts,
        None => return None,
    };
    if ts.len() == 0 {
        return None;
    }
    let mut decls: Vec<Json> = Vec::new();
    let mut i: usize = 0;
    while i < ts.len()
        invariant
            0 <= i <= ts@.len(),
            aview(decls@) == ts.deep_view().take(i as int).map_values(|t| function_declaration(t)),
        decreases ts@.len() - i,
    {
        push_item(&mut decls, function_declaration_json(&ts[i]));
        proof {
            assert(ts.deep_view().take(i + 1).map_values(|t| function_declaration(t))
                =~= ts.deep_view().take(i as int).map_values(|t| function_declaration(t)).push(
                function_declaration(ts@[i as int].deep_view()),
            ));
        }
        i = i + 1;
    }
    proof {
        assert(ts.deep_view().take(ts@.len() as int) =~= ts.deep_view());
    }
    let mut holder: Vec<(String, Json)> = Vec::new();
    push_member(&mut holder, "functionDeclarations", array(decls));
    let h = object(holder);
    let mut items: Vec<Json> = Vec::new();
    proof {
        assert(aview(items@) =~= Seq::<JsonV>::empty());
    }
    push_item(&mut items, h);
    proof {
        assert(mview(holder@) =~= seq![
            ("functionDeclarations"@, JsonV::Array(ts.deep_view().map_values(|t| function_declaration(t)))),
        ]);
        assert(aview(items@) =~= seq![h.deep_view()]);
    }
    Some(array(items))
}

fn push_number_member(members: &mut Vec<(String, Json)>, key: &str, n: Option<String>)
    ensures
        mview(final(members)@) == mview(old(members)@) + number_member(key@, n.deep_view()),
{
    match n {
        Some(t) => {
            push_member(members, key, Json::Number(t));
            proof {
                assert(mview(members@) =~= mview(old(members)@) + number_member(key@, n.deep_view()));
            }
        },
        None => {
            proof {
                assert(mview(members@) =~= mview(old(members)@) + number_member(key@, n.deep_view()));
            }
        },
    }
}

fn generation_config_json(r: &ChatRequest) -> (out: Json)
    ensures
        out.deep_view() == generation_config_spec(r.deep_view()),
{
    let temperature = match &r.temperature {
        Some(t) => t.clone(),
        None => "0.2".to_string(),
    };
    let mut m: Vec<(String, Json)> = Vec::new();
    push_member(&mut m, "temperature", Json::Number(temperature));
    let max_tokens = match r.max_tokens {
        Some(k) => Some(usize_to_text(k as usize)),
        None => None,
    };
    push_number_member(&mut m, "maxOutputTokens", max_tokens);
    let top_p = match &r.top_p {
        Some(p) => Some(p.clone()),
        None => None,
    };
    push_number_member(&mut m, "topP", top_p);
    let out = object(m);
    proof {
        assert(mview(m@) =~= generation_config_spec(r.deep_view())->Object_0);
    }
    out
}

/// The body of `generateContent` / `streamGenerateContent` for `request`.
#[verifier::spinoff_prover]
pub fn build_request_json(request: &ChatRequest) -> (r: Result<Json, Error>)
    ensures
        result_view(r) == gemini_body_spec(request.deep_view()),
{
    let (parts, contents) = match gemini_contents_from_chat(request) {
        Ok(pc) => pc,
        Err(e) => {
            return Err(e);
        },
    };
    let system_instruction: Option<Json> = if parts.len() == 0 {
        None
    } else {
        proof {
            reveal_strlit("\n\n");
        }
        let joined = join_strings(&parts, "\n\n");
        let mut items: Vec<Json> = Vec::new();
        proof {
            assert(aview(items@) =~= Seq::<JsonV>::empty());
        }
        push_item(&mut items, text_part_json(joined));
        let mut m: Vec<(String, Json)> = Vec::new();
        push_member(&mut m, "parts", array(items));
        proof {
            assert(aview(items@) =~= seq![text_part(join_spec(parts.deep_view(), "\n\n"@))]);
            assert(mview(m@) =~= system_instruction_spec(parts.deep_view())->Some_0->Object_0);
        }
        Some(object(m))
    };
    let tools = gemini_tools_json(request);
    let tool_config: Option<Json> = if tools.is_some() {
        match &request.tool_choice {
            Some(tc) => {
                let mut m: Vec<(String, Json)> = Vec::new();
                push_member(&mut m, "functionCallingConfig", gemini_function_calling_config(tc));
                proof {
                    assert(mview(m@) =~= gemini_tool_config_value(request.deep_view())->Some_0->Object_0);
                }
                Some(object(m))
            },
            None => None,
        }
    } else {
        None
    };
    let ghost cv = aview(contents@);
    let mut members: Vec<(String, Json)> = Vec::new();
    push_member(&mut members, "contents", array(contents));
    push_member(&mut members, "generationConfig", generation_config_json(request));
    push_opt_member(&mut members, "systemInstruction", system_instruction);
    push_opt_member(&mut members, "tools", tools);
    push_opt_member(&mut members, "toolConfig", tool_config);
    proof {
        assert(mview(members@) =~= gemini_members(request.deep_view(), parts.deep_view(), cv));
    }
    Ok(object(members))
}

/// The URL of `{base_url}/models/{model}:{method}`.
pub open spec fn gemini_url_spec(base_url: Seq<char>, model: Seq<char>, method: Seq<char>) -> Seq<char> {
    join_url_spec(base_url, "/models/"@ + model + ":"@ + method)
}

/// The URL of a Gemini method (`generateContent`, `streamGenerateContent`)
/// for `model` under `base_url`.
pub fn gemini_url(base_url: &str, model: &str, method: &str) -> (r: String)
    ensures
        r@ == gemini_url_spec(base_url@, model@, method@),
{
    let mut path = "/models/".to_string();
    path.append(model);
    path.append(":");
    path.append(method);
    join_url(base_url, path.as_str())
}

/// The finish reasons of the Gemini API.
pub open spec fn gemini_finish_reason_spec(s: Seq<char>) -> Option<FinishReason> {
    if s == "STOP"@ || s == "FINISH_REASON_STOP"@ {
        Some(FinishReason::Stop)
    } else if s == "MAX_TOKENS"@ || s == "FINISH_REASON_MAX_TOKENS"@ {
        Some(FinishReason::Length)
    } else if s == "SAFETY"@ || s == "RECITATION"@ || s == "OTHER"@ {
        Some(FinishReason::ContentFilter)
    } else {
        None
    }
}

pub fn map_gemini_finish_reason(s: &str) -> (r: Option<FinishReason>)
    ensures
        r == gemini_finish_reason_spec(s@),
{
    if str_eq(s, "STOP") || str_eq(s, "FINISH_REASON_STOP") {
        Some(FinishReason::Stop)
    } else if str_eq(s, "MAX_TOKENS") || str_eq(s, "FINISH_REASON_MAX_TOKENS") {
        Some(FinishReason::Length)
    } else if str_eq(s, "SAFETY") || str_eq(s, "RECITATION") || str_eq(s, "OTHER") {
        Some(FinishReason::ContentFilter)
    } else {
        None
    }
}

/// The parts of the first candidate.
pub open spec fn candidate_parts(c0: JsonV) -> Seq<JsonV> {
    match jarr(crate::json::oget(jget(c0, "content"@), "parts"@)) {
        Some(p) => p,
        None => Seq::empty(),
    }
}

pub open spec fn part_text(p: JsonV) -> Seq<char> {
    match jstr(jget(p, "text"@)) {
        Some(t) => t,
        None => Seq::empty(),
    }
}

/// The id given to the function call of part `i` (Gemini has none).
pub open spec fn gemini_call_id(i: nat) -> Seq<char> {
    "gemini_fc_"@ + decimal_text(i)
}

pub open spec fn fc_name(fc: JsonV) -> Seq<char> {
    match jstr(jget(fc, "name"@)) {
        Some(n) => n,
        None => Seq::empty(),
    }
}

pub open spec fn fc_args(fc: JsonV) -> JsonV {
    match jget(fc, "args"@) {
        Some(a) => a,
        None => empty_object(),
    }
}

/// The text and the function calls of the parts, in order.
pub open spec fn gemini_parts_spec(parts: Seq<JsonV>) -> (Seq<char>, Seq<ToolCallV>)
    decreases parts.len(),
{
    if parts.len() == 0 {
        (Seq::empty(), Seq::empty())
    } else {
        let (text, calls) = gemini_parts_spec(parts.drop_last());
        let i = (parts.len() - 1) as nat;
        let p = parts.last();
        let calls2 = match jget(p, "functionCall"@) {
            Some(fc) => calls.push(
                ToolCallV {
                    id: gemini_call_id(i),
                    function: FunctionCallResultV {
                        name: fc_name(fc),
                        arguments: serde_json_write(fc_args(fc)),
                    },
                },
            ),
            None => calls,
        };
        (text + part_text(p), calls2)
    }
}

/// The hint in the error for an answer without candidates.
pub open spec fn feedback_hint(v: JsonV) -> Seq<char> {
    match jget(v, "promptFeedback"@) {
        Some(pf) => serde_json_write(pf),
        None => "empty candidates, no promptFeedback"@,
    }
}

/// The answer of a non-stream call: the first candidate's text parts joined
/// and its function calls; with function calls the end reason is
/// `ToolCalls`. An answer without candidates is a `Parse` error that quotes
/// `promptFeedback`.
pub open spec fn gemini_response_spec(v: JsonV) -> Result<ChatResponseV, ErrorV> {
    match jarr(jget(v, "candidates"@)) {
        None => Err(ErrorV::MissingField("candidates"@)),
        Some(cands) => if cands.len() == 0 {
            Err(
                ErrorV::Parse(
                    "Gemini generateContent returned no candidates (check promptFeedback): "@
                        + feedback_hint(v),
                ),
            )
        } else {
            let c0 = cands[0];
            let (text, calls) = gemini_parts_spec(candidate_parts(c0));
            Ok(
                ChatResponseV {
                    content: if text.len() == 0 {
                        None
                    } else {
                        Some(text)
                    },
                    tool_calls: if calls.len() == 0 {
                        None
                    } else {
                        Some(calls)
                    },
                    finish_reason: if calls.len() > 0 {
                        Some(FinishReason::ToolCalls)
                    } else {
                        match jstr(jget(c0, "finishReason"@)) {
                            Some(s) => gemini_finish_reason_spec(s),
                            None => None,
                        }
                    },
                },
            )
        },
    }
}

proof fn lemma_call_id_injective(a: nat, b: nat)
    ensures
        gemini_call_id(a) == gemini_call_id(b) ==> a == b,
{
    if gemini_call_id(a) == gemini_call_id(b) {
        let p = "gemini_fc_"@;
        assert((p + decimal_text(a)).skip(p.len() as int) =~= decimal_text(a));
        assert((p + decimal_text(b)).skip(p.len() as int) =~= decimal_text(b));
        lemma_decimal_text_injective(a, b);
    }
}

proof fn lemma_parts_call_ids(parts: Seq<JsonV>)
    ensures
        forall|i: int|
            0 <= i < gemini_parts_spec(parts).1.len() ==> exists|k: nat|
                k < parts.len() && #[trigger] gemini_parts_spec(parts).1[i].id == gemini_call_id(k),
        forall|i: int, j: int|
            0 <= i < j < gemini_parts_spec(parts).1.len() ==> #[trigger] gemini_parts_spec(parts).1[i].id
                != #[trigger] gemini_parts_spec(parts).1[j].id,
    decreases parts.len(),
{
    if parts.len() > 0 {
        let prev = parts.drop_last();
        lemma_parts_call_ids(prev);
        let c0 = gemini_parts_spec(prev).1;
        let c = gemini_parts_spec(parts).1;
        let n = (parts.len() - 1) as nat;
        assert forall|i: int| 0 <= i < c.len() implies exists|k: nat|
            k < parts.len() && #[trigger] c[i].id == gemini_call_id(k) by {
            if i < c0.len() {
                assert(c[i] == c0[i]);
                let k = choose|k: nat| k < prev.len() && #[trigger] c0[i].id == gemini_call_id(k);
                assert(k < parts.len() && c[i].id == gemini_call_id(k));
            } else {
                assert(c[i].id == gemini_call_id(n));
            }
        }
        assert forall|i: int, j: int| 0 <= i < j < c.len() implies #[trigger] c[i].id
            != #[trigger] c[j].id by {
            if j < c0.len() {
                assert(c[i] == c0[i] && c[j] == c0[j]);
            } else {
                assert(c[i] == c0[i]);
                assert(c[j].id == gemini_call_id(n));
                let k = choose|k: nat| k < prev.len() && #[trigger] c0[i].id == gemini_call_id(k);
                lemma_call_id_injective(k, n);
            }
        }
    }
}

/// The text read from one part is its `text` member when that is a string,
/// and nothing otherwise.
pub proof fn lemma_gemini_part_text(p: JsonV)
    ensures
        gemini_parts_spec(seq![p]).0 == match jget(p, "text"@) {
            Some(JsonV::Str(t)) => t,
            _ => Seq::<char>::empty(),
        },
{
    reveal_with_fuel(gemini_parts_spec, 2);
    assert(seq![p].drop_last() =~= Seq::<JsonV>::empty());
    assert(seq![p].last() == p);
    assert(Seq::<char>::empty() + part_text(p) =~= part_text(p));
}

/// The text read from parts `a` followed by parts `b` is the text of `a`
/// followed by the text of `b`: every part's text is kept, in order.
pub proof fn lemma_gemini_text_concat(a: Seq<JsonV>, b: Seq<JsonV>)
    ensures
        gemini_parts_spec(a + b).0 == gemini_parts_spec(a).0 + gemini_parts_spec(b).0,
    decreases b.len(),
{
    if b.len() == 0 {
        assert(a + b =~= a);
        assert(gemini_parts_spec(a).0 + Seq::<char>::empty() =~= gemini_parts_spec(a).0);
    } else {
        let ab = a + b;
        assert(ab.drop_last() =~= a + b.drop_last());
        assert(ab.last() == b.last());
        lemma_gemini_text_concat(a, b.drop_last());
        let ta = gemini_parts_spec(a).0;
        let tb = gemini_parts_spec(b.drop_last()).0;
        assert(ta + tb + part_text(b.last()) =~= ta + (tb + part_text(b.last())));
    }
}

/// The content of a Gemini answer is the text of the parts of its first
/// candidate (`content.parts`), or none when that text is empty.
pub proof fn lemma_gemini_response_text(v: JsonV)
    ensures
        match gemini_response_spec(v) {
            Ok(r) => {
                let c0 = jarr(jget(v, "candidates"@))->Some_0[0];
                let parts = match jarr(crate::json::oget(jget(c0, "content"@), "parts"@)) {
                    Some(p) => p,
                    None => Seq::empty(),
                };
                let t = gemini_parts_spec(parts).0;
                r.content == if t.len() > 0 {
                    Some(t)
                } else {
                    None
                }
            },
            Err(_) => true,
        },
{
}

/// The function calls read from a Gemini answer carry pairwise distinct ids,
/// so each can be answered on its own; with calls the end reason is
/// `ToolCalls`.
pub proof fn lemma_gemini_call_ids_distinct(v: JsonV)
    ensures
        match gemini_response_spec(v) {
            Ok(r) => match r.tool_calls {
                Some(cs) => r.finish_reason == Some(FinishReason::ToolCalls) && forall|i: int, j: int|
                    0 <= i < j < cs.len() ==> #[trigger] cs[i].id != #[trigger] cs[j].id,
                None => true,
            },
            Err(_) => true,
        },
{
    match jarr(jget(v, "candidates"@)) {
        Some(cands) => {
            if cands.len() > 0 {
                lemma_parts_call_ids(candidate_parts(cands[0]));
            }
        },
        None => {},
    }
}

fn candidate_parts_json(c0: &Json) -> (r: Option<&Vec<Json>>)
    ensures
        match r {
            Some(p) => p.deep_view() == candidate_parts(c0.deep_view()),
            None => candidate_parts(c0.deep_view()) == Seq::<JsonV>::empty(),
        },
{
    as_array(crate::json::field_opt(field(c0, "content"), "parts"))
}

fn part_text_json(p: &Json) -> (r: String)
    ensures
        r@ == part_text(p.deep_view()),
{
    match as_str(field(p, "text")) {
        Some(t) => t.clone(),
        None => String::new(),
    }
}

fn gemini_call_json(i: usize, fc: &Json) -> (r: ToolCall)
    ensures
        r.deep_view() == (ToolCallV {
            id: gemini_call_id(i as nat),
            function: FunctionCallResultV {
                name: fc_name(fc.deep_view()),
                arguments: serde_json_write(fc_args(fc.deep_view())),
            },
        }),
{
    let name = match as_str(field(fc, "name")) {
        Some(n) => n.clone(),
        None => String::new(),
    };
    let arguments = match field(fc, "args") {
        Some(a) => write_json(a),
        None => {
            let e = object(Vec::new());
            proof {
                assert(mview(Seq::<(String, Json)>::empty()) =~= Seq::<(Seq<char>, JsonV)>::empty());
            }
            write_json(&e)
        },
    };
    let mut id = "gemini_fc_".to_string();
    id.append(usize_to_text(i).as_str());
    ToolCall { id, function: FunctionCallResult { name, arguments } }
}

/// The text and function calls of a candidate's parts.
fn gemini_parts_json(parts: &Vec<Json>) -> (r: (String, Vec<ToolCall>))
    ensures
        (r.0@, r.1.deep_view()) == gemini_parts_spec(parts.deep_view()),
{
    let ghost ps = parts.deep_view();
    let mut text = String::new();
    let mut calls: Vec<ToolCall> = Vec::new();
    let mut i: usize = 0;
    proof {
        assert(ps.take(0) =~= Seq::<JsonV>::empty());
        assert(calls.deep_view() =~= Seq::<ToolCallV>::empty());
    }
    while i < parts.len()
        invariant
            ps == parts.deep_view(),
            0 <= i <= parts@.len(),
            (text@, calls.deep_view()) == gemini_parts_spec(ps.take(i as int)),
        decreases parts@.len() - i,
    {
        let p = &parts[i];
        proof {
            assert(ps.take(i + 1).drop_last() =~= ps.take(i as int));
            assert(ps.take(i + 1).last() == p.deep_view());
        }
        let t = part_text_json(p);
        text.append(t.as_str());
        match field(p, "functionCall") {
            Some(fc) => {
                calls.push(gemini_call_json(i, fc));
                proof {
                    assert(calls.deep_view() =~= gemini_parts_spec(ps.take(i + 1)).1);
                }
            },
            None => {},
        }
        i = i + 1;
    }
    proof {
        assert(ps.take(parts@.len() as int) =~= ps);
    }
    (text, calls)
}

fn feedback_hint_json(v: &Json) -> (r: String)
    ensures
        r@ == feedback_hint(v.deep_view()),
{
    match field(v, "promptFeedback") {
        Some(pf) => write_json(pf),
        None => "empty candidates, no promptFeedback".to_string(),
    }
}

/// Reads the answer of a non-stream call.
pub fn parse_gemini_generate_response(v: &Json) -> (r: Result<ChatResponse, Error>)
    ensures
        result_view(r) == gemini_response_spec(v.deep_view()),
{
    let candidates = match as_array(field(v, "candidates")) {
        Some(c) => c,
        None => return Err(Error::MissingField("candidates")),
    };
    if candidates.len() == 0 {
        let mut msg = "Gemini generateContent returned no candidates (check promptFeedback): ".to_string();
        msg.append(feedback_hint_json(v).as_str());
        return Err(Error::Parse(msg));
    }
    let c0 = &candidates[0];
    let (text, calls) = match candidate_parts_json(c0) {
        Some(parts) => gemini_parts_json(parts),
        None => {
            proof {
                assert(gemini_parts_spec(Seq::<JsonV>::empty()) == (Seq::<char>::empty(), Seq::<ToolCallV>::empty()));
            }
            let e: Vec<ToolCall> = Vec::new();
            proof {
                assert(e.deep_view() =~= Seq::<ToolCallV>::empty());
            }
            (String::new(), e)
        },
    };
    let finish_reason = if calls.len() > 0 {
        Some(FinishReason::ToolCalls)
    } else {
        match as_str(field(c0, "finishReason")) {
            Some(s) => map_gemini_finish_reason(s.as_str()),
            None => None,
        }
    };
    let content = if text.as_str().unicode_len() == 0 {
        None
    } else {
        Some(text)
    };
    let tool_calls = if calls.len() == 0 {
        None
    } else {
        Some(calls)
    };
    Ok(ChatResponse { content, tool_calls, finish_reason })
}

pub open spec fn fc_opt_args(fc: JsonV) -> Option<Seq<char>> {
    match jget(fc, "args"@) {
        Some(a) => Some(serde_json_write(a)),
        None => None,
    }
}

/// The text and function-call pieces of a streamed candidate's parts; a
/// piece's `index` is its part's position (cut to 32 bits).
pub open spec fn gemini_stream_parts(parts: Seq<JsonV>) -> (Seq<char>, Seq<ToolCallDeltaV>)
    decreases parts.len(),
{
    if parts.len() == 0 {
        (Seq::empty(), Seq::empty())
    } else {
        let (text, deltas) = gemini_stream_parts(parts.drop_last());
        let i = (parts.len() - 1) as nat;
        let p = parts.last();
        let deltas2 = match jget(p, "functionCall"@) {
            Some(fc) => deltas.push(
                ToolCallDeltaV {
                    index: i as u32,
                    id: None,
                    function_name: jstr(jget(fc, "name"@)),
                    function_arguments: fc_opt_args(fc),
                },
            ),
            None => deltas,
        };
        (text + part_text(p), deltas2)
    }
}

pub open spec fn candidate_finish(c0: JsonV) -> Option<FinishReason> {
    match jstr(jget(c0, "finishReason"@)) {
        Some(s) => gemini_finish_reason_spec(s),
        None => None,
    }
}

/// The end reason of a streamed candidate: with function calls, any end
/// reason is reported as `ToolCalls`.
pub open spec fn stream_finish(c0: JsonV, has_calls: bool) -> Option<FinishReason> {
    if has_calls {
        match candidate_finish(c0) {
            Some(_) => Some(FinishReason::ToolCalls),
            None => None,
        }
    } else {
        candidate_finish(c0)
    }
}

/// What a parsed stream payload yields: nothing without a `candidates`
/// array; an empty one is a `Parse` error when it carries `promptFeedback`;
/// otherwise the first candidate's text, function-call pieces and end
/// reason, unless all three are absent.
pub open spec fn gemini_payload_spec(v: JsonV) -> Option<Result<ChatChunkV, ErrorV>> {
    match jarr(jget(v, "candidates"@)) {
        None => None,
        Some(cands) => if cands.len() == 0 {
            match jget(v, "promptFeedback"@) {
                Some(pf) => Some(
                    Err(
                        ErrorV::Parse(
                            "Gemini streamGenerateContent returned no candidates: "@
                                + serde_json_write(pf),
                        ),
                    ),
                ),
                None => None,
            }
        } else {
            let c0 = cands[0];
            let (text, deltas) = gemini_stream_parts(candidate_parts(c0));
            let fr = stream_finish(c0, deltas.len() > 0);
            if text.len() == 0 && deltas.len() == 0 && fr is None {
                None
            } else {
                Some(
                    Ok(
                        ChatChunkV {
                            delta: if text.len() == 0 {
                                None
                            } else {
                                Some(text)
                            },
                            tool_call_deltas: if deltas.len() == 0 {
                                None
                            } else {
                                Some(deltas)
                            },
                            finish_reason: fr,
                        },
                    ),
                )
            }
        },
    }
}

/// What one stream event yields.
pub open spec fn gemini_event_spec(ev: SseEventV) -> Option<Result<ChatChunkV, ErrorV>> {
    let data = trim_spec(ev.data);
    if data.len() == 0 {
        None
    } else {
        match serde_json_read(data) {
            Err(m) => Some(Err(ErrorV::Parse(m))),
            Ok(v) => gemini_payload_spec(v),
        }
    }
}

pub open spec fn opt_chunk_result(r: Option<Result<ChatChunk, Error>>) -> Option<Result<ChatChunkV, ErrorV>> {
    match r {
        Some(x) => Some(result_view(x)),
        None => None,
    }
}

fn stream_delta_json(i: usize, fc: &Json) -> (r: ToolCallDelta)
    ensures
        r.deep_view() == (ToolCallDeltaV {
            index: (i as nat) as u32,
            id: None,
            function_name: jstr(jget(fc.deep_view(), "name"@)),
            function_arguments: fc_opt_args(fc.deep_view()),
        }),
{
    let name = match as_str(field(fc, "name")) {
        Some(n) => Some(n.clone()),
        None => None,
    };
    let args = match field(fc, "args") {
        Some(a) => Some(write_json(a)),
        None => None,
    };
    ToolCallDelta { index: i as u32, id: None, function_name: name, function_arguments: args }
}

fn gemini_stream_parts_json(parts: &Vec<Json>) -> (r: (String, Vec<ToolCallDelta>))
    ensures
        (r.0@, r.1.deep_view()) == gemini_stream_parts(parts.deep_view()),
{
    let ghost ps = parts.deep_view();
    let mut text = String::new();
    let mut deltas: Vec<ToolCallDelta> = Vec::new();
    let mut i: usize = 0;
    proof {
        assert(ps.take(0) =~= Seq::<JsonV>::empty());
        assert(deltas.deep_view() =~= Seq::<ToolCallDeltaV>::empty());
    }
    while i < parts.len()
        invariant
            ps == parts.deep_view(),
            0 <= i <= parts@.len(),
            (text@, deltas.deep_view()) == gemini_stream_parts(ps.take(i as int)),
        decreases parts@.len() - i,
    {
        let p = &parts[i];
        proof {
            assert(ps.take(i + 1).drop_last() =~= ps.take(i as int));
            assert(ps.take(i + 1).last() == p.deep_view());
        }
        let t = part_text_json(p);
        text.append(t.as_str());
        match field(p, "functionCall") {
            Some(fc) => {
                deltas.push(stream_delta_json(i, fc));
                proof {
                    assert(deltas.deep_view() =~= gemini_stream_parts(ps.take(i + 1)).1);
                }
            },
            None => {},
        }
        i = i + 1;
    }
    proof {
        assert(ps.take(parts@.len() as int) =~= ps);
    }
    (text, deltas)
}

fn gemini_payload_json(v: &Json) -> (r: Option<Result<ChatChunk, Error>>)
    ensures
        opt_chunk_result(r) == gemini_payload_spec(v.deep_view()),
{
    let candidates = match as_array(field(v, "candidates")) {
        Some(c) => c,
        None => return None,
    };
    if candidates.len() == 0 {
        return match field(v, "promptFeedback") {
            Some(pf) => {
                let mut msg = "Gemini streamGenerateContent returned no candidates: ".to_string();
                msg.append(write_json(pf).as_str());
                Some(Err(Error::Parse(msg)))
            },
            None => None,
        };
    }
    let c0 = &candidates[0];
    let (text, deltas) = match candidate_parts_json(c0) {
        Some(parts) => gemini_stream_parts_json(parts),
        None => {
            let e: Vec<ToolCallDelta> = Vec::new();
            proof {
                assert(e.deep_view() =~= Seq::<ToolCallDeltaV>::empty());
            }
            (String::new(), e)
        },
    };
    let finish = match as_str(field(c0, "finishReason")) {
        Some(s) => map_gemini_finish_reason(s.as_str()),
        None => None,
    };
    let fr = if deltas.len() > 0 {
        match finish {
            Some(_) => Some(FinishReason::ToolCalls),
            None => None,
        }
    } else {
        finish
    };
    let no_text = text.as_str().unicode_len() == 0;
    if no_text && deltas.len() == 0 && fr.is_none() {
        return None;
    }
    let delta = if no_text {
        None
    } else {
        Some(text)
    };
    let tool_call_deltas = if deltas.len() == 0 {
        None
    } else {
        Some(deltas)
    };
    Some(Ok(ChatChunk { delta, tool_call_deltas, finish_reason: fr }))
}

/// Reads one stream event.
pub fn google_parse_sse_event(ev: SseEvent) -> (r: Option<Result<ChatChunk, Error>>)
    ensures
        opt_chunk_result(r) == gemini_event_spec(ev.deep_view()),
{
    let data = str_trim(ev.data.as_str());
    if data.unicode_len() == 0 {
        return None;
    }
    match read_json(data) {
        Err(m) => Some(Err(Error::Parse(m))),
        Ok(v) => gemini_payload_json(&v),
    }
}

/// One item of the event stream: a transport error passes through, an event
/// is read.
pub fn google_sse_item_to_chunk(item: Result<SseEvent, Error>) -> (r: Option<Result<ChatChunk, Error>>)
    ensures
        match item {
            Err(e) => r matches Some(Err(e2)) && e2.deep_view() == e.deep_view(),
            Ok(ev) => opt_chunk_result(r) == gemini_event_spec(ev.deep_view()),
        },
{
    match item {
        Err(e) => Some(Err(e)),
        Ok(ev) => google_parse_sse_event(ev),
    }
}

} // verus!
