//! The decisions of the four tools: which request a call of a tool sends,
//! when its parameters are refused and with what message, and what the
//! tool answers once the API has replied.

use vstd::prelude::*;
use vstd::string::*;
use crate::api::{
    ApiError, ChatMessage, ChatRequest, ChatResponse, EmbeddingRequest, EmbeddingResponse,
    ModelInfo, ModelsResponse, chat_response_text, embedding_response_text,
    format_chat_response, format_embedding_response, is_image_message, is_text_message,
};
use crate::json::{
    Json, is_json_str, json_same, json_str, lemma_json_same_refl, member, parse_json, parsed_json,
};
use crate::params::{ChatParams, EmbeddingParams, VisionParams};
use crate::text::{
    join, join_strings, lemma_single_line_concat, lemma_split_join_lines, push_string,
    single_line, split_lines, starts_with, views,
};

verus! {

/// The chat model used when a call names none.
pub const DEFAULT_MODEL: &'static str = "gpt-4o";

/// The embedding model used when a call names none.
pub const DEFAULT_EMBEDDING_MODEL: &'static str = "text-embedding-3-small";

/// The image detail level used when a call names none.
pub const DEFAULT_DETAIL: &'static str = "high";

/// What a tool answers its caller: a text, marked as an error or not.
#[derive(Debug, PartialEq)]
pub struct ToolOutcome {
    pub is_error: bool,
    pub text: String,
}

/// The characters of an optional string.
pub open spec fn opt_str(o: Option<&str>) -> Option<Seq<char>> {
    match o {
        Some(s) => Some(s@),
        None => None,
    }
}

/// The characters of an optional owned string.
pub open spec fn opt_string(o: Option<String>) -> Option<Seq<char>> {
    match o {
        Some(s) => Some(s@),
        None => None,
    }
}

/// The characters of an optional string, or `default`.
pub open spec fn or_default(o: Option<String>, default: Seq<char>) -> Seq<char> {
    match o {
        Some(s) => s@,
        None => default,
    }
}

/// The messages of a parsed history; none when no history was given.
pub open spec fn history_of(h: Option<Result<Vec<ChatMessage>, String>>) -> Seq<ChatMessage> {
    match h {
        Some(Ok(v)) => v@,
        _ => Seq::empty(),
    }
}

/// `ms` is the conversation made of the system prompt (if any), then the
/// history, then the prompt as the final user message.
pub open spec fn is_conversation(
    ms: Seq<ChatMessage>,
    system: Option<Seq<char>>,
    history: Seq<ChatMessage>,
    prompt: Seq<char>,
) -> bool {
    let k: int = if system is Some {
        1
    } else {
        0
    };
    &&& ms.len() == k + history.len() + 1
    &&& (system matches Some(s) ==> is_text_message(ms[0], "system"@, s))
    &&& ms.subrange(k, k + history.len()) == history
    &&& is_text_message(ms.last(), "user"@, prompt)
}

/// The layout of a conversation.  With a system prompt `s`: first a
/// system message whose text is `s`, then the history message for message,
/// then a user message whose text is the prompt, `history.len() + 2`
/// messages in all.  Without one: the history, then the prompt,
/// `history.len() + 1` in all.  This holds for an empty history as for any
/// other.
pub proof fn lemma_conversation_layout(
    ms: Seq<ChatMessage>,
    system: Option<Seq<char>>,
    history: Seq<ChatMessage>,
    prompt: Seq<char>,
)
    requires
        is_conversation(ms, system, history, prompt),
    ensures
        match system {
            Some(s) => {
                &&& ms.len() == history.len() + 2
                &&& ms[0].role@ == "system"@
                &&& ms[0].content matches Some(Json::Str(t)) && t@ == s
                &&& forall|i: int| 0 <= i < history.len() ==> ms[i + 1] == #[trigger] history[i]
            },
            None => {
                &&& ms.len() == history.len() + 1
                &&& forall|i: int| 0 <= i < history.len() ==> ms[i] == #[trigger] history[i]
            },
        },
        ms.len() >= 1,
        ms.last().role@ == "user"@,
        ms.last().content matches Some(Json::Str(t)) && t@ == prompt,
{
    let k: int = if system is Some {
        1
    } else {
        0
    };
    assert forall|i: int| 0 <= i < history.len() implies ms[i + k] == #[trigger] history[i] by {
        assert(ms.subrange(k, k + history.len())[i] == ms[i + k]);
    }
}

/// `f` is the response format that asks for output conforming to
/// `schema`: `{"type": "json_schema", "json_schema": {"name":
/// "structured_output", "strict": true, "schema": schema}}`.
pub open spec fn is_schema_format(f: Json, schema: Json) -> bool {
    &&& f matches Json::Object(ms)
    &&& ms@.len() == 2
    &&& ms@[0].0@ == "type"@ && is_json_str(ms@[0].1, "json_schema"@)
    &&& ms@[1].0@ == "json_schema"@
    &&& ms@[1].1 matches Json::Object(inner)
    &&& inner@.len() == 3
    &&& inner@[0].0@ == "name"@ && is_json_str(inner@[0].1, "structured_output"@)
    &&& inner@[1].0@ == "strict"@ && inner@[1].1 == Json::Bool(true)
    &&& inner@[2].0@ == "schema"@ && inner@[2].1 == schema
}

fn prefixed(prefix: &str, s: &str) -> (m: String)
    ensures
        m@ == prefix@ + s@,
{
    let mut m = String::from_str(prefix);
    m.append(s);
    m
}

fn as_opt_str(o: &Option<String>) -> (r: Option<&str>)
    ensures
        opt_str(r) == opt_string(*o),
{
    match o {
        Some(s) => Some(s.as_str()),
        None => None,
    }
}

/// The messages of a chat request: the system prompt (if given), the
/// parsed history (if given), then `prompt` as the final user message.
/// `history` is the outcome of parsing the history's JSON text; a parse
/// failure is refused with `Invalid messages JSON: <reason>`.
pub fn build_messages(
    system_prompt: Option<&str>,
    history: Option<Result<Vec<ChatMessage>, String>>,
    prompt: &str,
) -> (r: Result<Vec<ChatMessage>, String>)
    ensures
        match history {
            Some(Err(e)) => r matches Err(m) && m@ == "Invalid messages JSON: "@ + e@,
            _ => r matches Ok(ms) && is_conversation(
                ms@,
                opt_str(system_prompt),
                history_of(history),
                prompt@,
            ),
        },
        r matches Ok(ms) ==> match system_prompt {
            Some(s) => {
                &&& ms@.len() == history_of(history).len() + 2
                &&& ms@[0].role@ == "system"@
                &&& ms@[0].content matches Some(Json::Str(t)) && t@ == s@
            },
            None => ms@.len() == history_of(history).len() + 1,
        },
        r matches Ok(ms) ==> {
            &&& ms@.last().role@ == "user"@
            &&& ms@.last().content matches Some(Json::Str(t)) && t@ == prompt@
        },
{
    let ghost hist = history_of(history);
    let mut messages: Vec<ChatMessage> = Vec::new();
    if let Some(sys) = system_prompt {
        messages.push(ChatMessage::system(sys));
    }
    let ghost k = messages@.len();
    match history {
        Some(Err(e)) => {
            return Err(prefixed("Invalid messages JSON: ", e.as_str()));
        },
        Some(Ok(parsed)) => {
            let mut parsed = parsed;
            messages.append(&mut parsed);
        },
        None => {},
    }
    let ghost before_prompt = messages@;
    messages.push(ChatMessage::user(prompt));
    proof {
        assert(before_prompt =~= messages@.subrange(0, k as int) + hist);
        assert(messages@.subrange(k as int, (k + hist.len()) as int) =~= hist);
        lemma_conversation_layout(messages@, opt_str(system_prompt), hist, prompt@);
    }
    Ok(messages)
}

/// What the schema outcome `s` says, in characters.
pub open spec fn schema_outcome(s: Option<Result<Json, String>>) -> Option<
    Result<Json, Seq<char>>,
> {
    match s {
        Some(Ok(j)) => Some(Ok(j)),
        Some(Err(e)) => Some(Err(e@)),
        None => None,
    }
}

/// What parsing the optional schema text `s` gives.
pub open spec fn parsed_schema(s: Option<Seq<char>>) -> Option<Result<Json, Seq<char>>> {
    match s {
        Some(t) => Some(parsed_json(t)),
        None => None,
    }
}

/// The schema of a schema outcome, if it is one.
pub open spec fn schema_of(o: Option<Result<Json, Seq<char>>>) -> Option<Json> {
    match o {
        Some(Ok(j)) => Some(j),
        _ => None,
    }
}

/// `req` asks `model` (default `gpt-4o`) to continue `messages` with the
/// given temperature and token limit, and, when `schema` is given, to
/// conform to it.
pub open spec fn is_chat_request(
    req: ChatRequest,
    model: Option<Seq<char>>,
    messages: Seq<ChatMessage>,
    temperature: Option<u32>,
    max_tokens: Option<u32>,
    schema: Option<Json>,
) -> bool {
    &&& req.model@ == match model {
        Some(m) => m,
        None => DEFAULT_MODEL@,
    }
    &&& req.messages@ == messages
    &&& req.temperature == temperature
    &&& req.max_tokens == max_tokens
    &&& req.tools is None
    &&& match schema {
        Some(s) => req.response_format matches Some(f) && is_schema_format(f, s),
        None => req.response_format is None,
    }
}

/// `r` is what building a chat request gives: refused with `Invalid
/// response_schema JSON: <reason>` when the schema failed to parse, else
/// the request.
pub open spec fn chat_request_outcome(
    r: Result<ChatRequest, String>,
    model: Option<Seq<char>>,
    messages: Seq<ChatMessage>,
    temperature: Option<u32>,
    max_tokens: Option<u32>,
    schema: Option<Result<Json, Seq<char>>>,
) -> bool {
    match schema {
        Some(Err(e)) => r matches Err(m) && m@ == "Invalid response_schema JSON: "@ + e,
        _ => r matches Ok(req) && is_chat_request(
            req,
            model,
            messages,
            temperature,
            max_tokens,
            schema_of(schema),
        ),
    }
}

/// The step of [`build_chat_request`] after the schema's text has been
/// parsed: `response_schema` is the outcome of that parse.
pub fn build_chat_request_parsed(
    model: Option<&str>,
    messages: Vec<ChatMessage>,
    temperature: Option<u32>,
    max_tokens: Option<u32>,
    response_schema: Option<Result<Json, String>>,
) -> (r: Result<ChatRequest, String>)
    ensures
        chat_request_outcome(
            r,
            opt_str(model),
            messages@,
            temperature,
            max_tokens,
            schema_outcome(response_schema),
        ),
{
    let model_name = match model {
        Some(m) => m,
        None => DEFAULT_MODEL,
    };
    let mut req = ChatRequest::new(model_name, messages);
    req.temperature = temperature;
    req.max_tokens = max_tokens;
    match response_schema {
        Some(Err(e)) => {
            return Err(prefixed("Invalid response_schema JSON: ", e.as_str()));
        },
        Some(Ok(schema)) => {
            let inner = Json::Object(
                vec![
                    member("name", json_str("structured_output")),
                    member("strict", Json::Bool(true)),
                    member("schema", schema),
                ],
            );
            req.response_format = Some(
                Json::Object(vec![member("type", json_str("json_schema")), member("json_schema", inner)]),
            );
        },
        None => {},
    }
    Ok(req)
}

/// A chat request to `model` (default `gpt-4o`) with `messages`, the
/// given temperature and token limit, and, when a schema is given as JSON
/// text, a response format that makes the answer conform to it.  A schema
/// that does not parse is refused with `Invalid response_schema JSON:
/// <reason>`.
pub fn build_chat_request(
    model: Option<&str>,
    messages: Vec<ChatMessage>,
    temperature: Option<u32>,
    max_tokens: Option<u32>,
    response_schema: Option<&str>,
) -> (r: Result<ChatRequest, String>)
    ensures
        chat_request_outcome(
            r,
            opt_str(model),
            messages@,
            temperature,
            max_tokens,
            parsed_schema(opt_str(response_schema)),
        ),
{
    let parsed = match response_schema {
        Some(text) => Some(parse_json(text)),
        None => None,
    };
    build_chat_request_parsed(model, messages, temperature, max_tokens, parsed)
}

/// The system prompt of the chat parameters.
pub open spec fn system_of(p: ChatParams) -> Option<Seq<char>> {
    opt_string(p.system_prompt)
}

/// Decides a call of the `chat` tool.  `temperature_check` is the outcome
/// of checking the temperature and `history` that of parsing the JSON
/// text `p.messages`; the schema text `p.response_schema` is parsed here.
/// The first failure in that order refuses the call with its message;
/// otherwise the call sends the conversation (system prompt, history,
/// prompt) to the chosen model.
pub fn prepare_chat(
    p: &ChatParams,
    temperature_check: Result<(), String>,
    history: Option<Result<Vec<ChatMessage>, String>>,
) -> (r: Result<ChatRequest, String>)
    requires
        history is Some <==> p.messages is Some,
    ensures
        temperature_check matches Err(e) ==> (r matches Err(m) && m@ == e@),
        temperature_check is Ok ==> (history matches Some(Err(e)) ==> (r matches Err(m) && m@
            == "Invalid messages JSON: "@ + e@)),
        temperature_check is Ok && !(history matches Some(Err(_))) ==> match parsed_schema(
            opt_string(p.response_schema),
        ) {
            Some(Err(e)) => r matches Err(m) && m@ == "Invalid response_schema JSON: "@ + e,
            _ => r is Ok,
        },
        r matches Ok(req) ==> {
            &&& is_conversation(req.messages@, system_of(*p), history_of(history), p.prompt@)
            &&& is_chat_request(
                req,
                opt_string(p.model),
                req.messages@,
                p.temperature,
                p.max_tokens,
                schema_of(parsed_schema(opt_string(p.response_schema))),
            )
        },
{
    if let Err(e) = temperature_check {
        return Err(e);
    }
    let messages = match build_messages(as_opt_str(&p.system_prompt), history, p.prompt.as_str()) {
        Ok(ms) => ms,
        Err(e) => return Err(e),
    };
    build_chat_request(
        as_opt_str(&p.model),
        messages,
        p.temperature,
        p.max_tokens,
        as_opt_str(&p.response_schema),
    )
}

/// Whether `url` is one that the vision tool accepts: it starts with
/// `http://` or `https://`.
pub open spec fn acceptable_image_url(url: Seq<char>) -> bool {
    "http://"@.is_prefix_of(url) || "https://"@.is_prefix_of(url)
}

/// Every URL made of `http://` or `https://` followed by anything at all
/// (a host, a path, a query string, ...) is accepted, and a text whose
/// first character is not `h` never is.
pub proof fn lemma_image_url_schemes(rest: Seq<char>, other: Seq<char>)
    requires
        other.len() == 0 || other[0] != 'h',
    ensures
        acceptable_image_url("http://"@ + rest),
        acceptable_image_url("https://"@ + rest),
        !acceptable_image_url(other),
{
    reveal_strlit("http://");
    reveal_strlit("https://");
    assert(("http://"@ + rest).subrange(0, 7) =~= "http://"@);
    assert(("https://"@ + rest).subrange(0, 8) =~= "https://"@);
    if "http://"@.is_prefix_of(other) {
        assert(other[0] == "http://"@[0]);
    }
    if "https://"@.is_prefix_of(other) {
        assert(other[0] == "https://"@[0]);
    }
}

/// Refuses an image URL that does not start with `http://` or
/// `https://`.
pub fn validate_image_url(url: &str) -> (r: Result<(), String>)
    ensures
        r is Ok <==> acceptable_image_url(url@),
        r is Ok <==> ("http://"@.is_prefix_of(url@) || "https://"@.is_prefix_of(url@)),
        r matches Err(m) ==> m@ == "image_url must start with http:// or https://"@,
{
    if !starts_with(url, "http://") && !starts_with(url, "https://") {
        Err(String::from_str("image_url must start with http:// or https://"))
    } else {
        Ok(())
    }
}

/// Decides a call of the `chat_with_vision` tool.  A URL that is not
/// `http://` or `https://` is refused first, then a failed temperature
/// check (`temperature_check`); otherwise the call sends one user message
/// showing the image with the prompt, at the requested detail (default
/// `high`), to the chosen model (default `gpt-4o`).
pub fn prepare_vision(p: &VisionParams, temperature_check: Result<(), String>) -> (r: Result<
    ChatRequest,
    String,
>)
    ensures
        !acceptable_image_url(p.image_url@) ==> (r matches Err(m) && m@
            == "image_url must start with http:// or https://"@),
        acceptable_image_url(p.image_url@) ==> match temperature_check {
            Err(e) => r matches Err(m) && m@ == e@,
            Ok(_) => r is Ok,
        },
        r matches Ok(req) ==> {
            &&& req.messages@.len() == 1
            &&& is_image_message(
                req.messages@[0],
                p.prompt@,
                p.image_url@,
                or_default(p.detail, DEFAULT_DETAIL@),
            )
            &&& req.model@ == or_default(p.model, DEFAULT_MODEL@)
            &&& req.temperature == p.temperature
            &&& req.max_tokens == p.max_tokens
            &&& req.response_format is None
            &&& req.tools is None
        },
{
    if let Err(e) = validate_image_url(p.image_url.as_str()) {
        return Err(e);
    }
    if let Err(e) = temperature_check {
        return Err(e);
    }
    let detail = match &p.detail {
        Some(d) => d.as_str(),
        None => DEFAULT_DETAIL,
    };
    let messages = vec![ChatMessage::user_with_image(p.prompt.as_str(), p.image_url.as_str(), detail)];
    build_chat_request(as_opt_str(&p.model), messages, p.temperature, p.max_tokens, None)
}

/// Whether `j` is an input that the embedding tool takes: a JSON string,
/// or an array of JSON strings.
pub open spec fn is_embedding_input(j: Json) -> bool {
    match j {
        Json::Str(_) => true,
        Json::Array(xs) => forall|i: int| 0 <= i < xs@.len() ==> (#[trigger] xs@[i]) is Str,
        _ => false,
    }
}

/// Whether `j` is a JSON string, or an array of JSON strings.
pub fn embedding_input_ok(j: &Json) -> (b: bool)
    ensures
        b == is_embedding_input(*j),
{
    match j {
        Json::Str(_) => true,
        Json::Array(xs) => {
            let mut i: usize = 0;
            while i < xs.len()
                invariant
                    i <= xs@.len(),
                    *j == Json::Array(*xs),
                    forall|k: int| 0 <= k < i ==> (#[trigger] xs@[k]) is Str,
                decreases xs@.len() - i,
            {
                match &xs[i] {
                    Json::Str(_) => {},
                    _ => {
                        assert(!(xs@[i as int] is Str));
                        return false;
                    },
                }
                i += 1;
            }
            true
        },
        _ => false,
    }
}

/// What an embedding call answers, given the outcome `input` of parsing
/// its input text: refused with `Invalid input JSON (must be a quoted
/// string or array of strings): <reason>` when the text did not parse,
/// refused with `Invalid input (must be a quoted string or array of
/// strings)` when it parsed to something else, and otherwise a request to
/// embed the parsed input with `model`.
pub open spec fn embedding_outcome_of(
    r: Result<EmbeddingRequest, String>,
    input: Result<Json, Seq<char>>,
    model: Seq<char>,
) -> bool {
    match input {
        Err(e) => r matches Err(m) && m@
            == "Invalid input JSON (must be a quoted string or array of strings): "@ + e,
        Ok(j) => if is_embedding_input(j) {
            r matches Ok(req) && req.input == j && req.model@ == model
        } else {
            r matches Err(m) && m@ == "Invalid input (must be a quoted string or array of strings)"@
        },
    }
}

/// The embedding tool takes every string and every array of strings, and
/// nothing else: no number, boolean, null or object, and no array holding
/// anything but strings.
pub proof fn lemma_embedding_input_kinds(s: String, strings: Vec<Json>, j: Json, x: Json)
    requires
        forall|i: int| 0 <= i < strings@.len() ==> (#[trigger] strings@[i]) is Str,
        !(x is Str),
    ensures
        is_embedding_input(Json::Str(s)),
        is_embedding_input(Json::Array(strings)),
        !is_embedding_input(Json::Null),
        !is_embedding_input(Json::Bool(true)) && !is_embedding_input(Json::Bool(false)),
        j is Number || j is Object ==> !is_embedding_input(j),
        forall|v: Vec<Json>| (#[trigger] v@).contains(x) ==> !is_embedding_input(Json::Array(v)),
{
    assert forall|v: Vec<Json>| (#[trigger] v@).contains(x) implies !is_embedding_input(
        Json::Array(v),
    ) by {
        let i = choose|i: int| 0 <= i < v@.len() && v@[i] == x;
        assert(!(v@[i] is Str));
    }
}

/// The step of [`prepare_embedding_text`] after the input text has been
/// parsed: `input` is the outcome of that parse.  The call goes out only
/// for a string or an array of strings, to the chosen model (default
/// `text-embedding-3-small`).
pub fn prepare_embedding(p: EmbeddingParams, input: Result<Json, String>) -> (r: Result<
    EmbeddingRequest,
    String,
>)
    ensures
        embedding_outcome_of(
            r,
            match input {
                Ok(j) => Ok(j),
                Err(e) => Err(e@),
            },
            or_default(p.model, DEFAULT_EMBEDDING_MODEL@),
        ),
{
    match input {
        Err(e) => Err(
            prefixed(
                "Invalid input JSON (must be a quoted string or array of strings): ",
                e.as_str(),
            ),
        ),
        Ok(j) => {
            if !embedding_input_ok(&j) {
                return Err(
                    String::from_str("Invalid input (must be a quoted string or array of strings)"),
                );
            }
            let model = match p.model {
                Some(m) => m,
                None => String::from_str(DEFAULT_EMBEDDING_MODEL),
            };
            Ok(EmbeddingRequest { model, input: j })
        },
    }
}

/// Decides a call of the `embedding` tool from its parameters: the JSON
/// text `p.input` is parsed here.  A text that does not parse, or that
/// holds anything but a string or an array of strings, is refused; otherwise
/// the parsed input is embedded with the chosen model (default
/// `text-embedding-3-small`).
pub fn prepare_embedding_text(p: EmbeddingParams) -> (r: Result<EmbeddingRequest, String>)
    ensures
        embedding_outcome_of(r, parsed_json(p.input@), or_default(p.model, DEFAULT_EMBEDDING_MODEL@)),
{
    let input = parse_json(p.input.as_str());
    prepare_embedding(p, input)
}

/// The line that names one model and its owner (`openai` when unknown).
pub open spec fn model_line(m: ModelInfo) -> Seq<char> {
    "- "@ + m.id@ + " ("@ + or_default(m.owned_by, "openai"@) + ")"@
}

/// The line of a model names the owner that the answer gives, and
/// `openai` only when it gives none: it is `- id (owner)` exactly.
pub proof fn lemma_model_line_owner(m: ModelInfo)
    ensures
        m.owned_by matches Some(o) ==> model_line(m) == "- "@ + m.id@ + " ("@ + o@ + ")"@,
        m.owned_by is None ==> model_line(m) == "- "@ + m.id@ + " (openai)"@,
{
    reveal_strlit(" (");
    reveal_strlit("openai");
    reveal_strlit(")");
    reveal_strlit(" (openai)");
    if m.owned_by is None {
        assert("- "@ + m.id@ + " ("@ + "openai"@ + ")"@ =~= "- "@ + m.id@ + " (openai)"@);
    }
}

/// The text of the model list: one `- id (owner)` line per model.
pub open spec fn model_list_text(r: ModelsResponse) -> Seq<char> {
    join(r.data@.map_values(|m: ModelInfo| model_line(m)), "\n"@)
}

fn model_text(m: &ModelInfo) -> (s: String)
    ensures
        s@ == model_line(*m),
{
    let mut s = String::from_str("- ");
    s.append(m.id.as_str());
    s.append(" (");
    match &m.owned_by {
        Some(o) => s.append(o.as_str()),
        None => s.append("openai"),
    }
    s.append(")");
    s
}

/// Renders the model list: one `- id (owner)` line per model, the owner
/// being `openai` where the API names none.
pub fn format_model_list(resp: &ModelsResponse) -> (s: String)
    ensures
        s@ == model_list_text(*resp),
{
    let mut lines: Vec<String> = Vec::new();
    let mut i: usize = 0;
    while i < resp.data.len()
        invariant
            i <= resp.data@.len(),
            views(lines@) == resp.data@.take(i as int).map_values(|m: ModelInfo| model_line(m)),
        decreases resp.data@.len() - i,
    {
        push_string(&mut lines, model_text(&resp.data[i]));
        proof {
            assert(resp.data@.take(i + 1).map_values(|m: ModelInfo| model_line(m))
                =~= resp.data@.take(i as int).map_values(|m: ModelInfo| model_line(m)).push(
                model_line(resp.data@[i as int]),
            ));
        }
        i += 1;
    }
    proof {
        assert(resp.data@.take(resp.data@.len() as int) =~= resp.data@);
    }
    join_strings(&lines, "\n")
}

/// Read line by line, the model list holds one line per model of the
/// answer, in order, each `- id (owner)`; this holds when the answer names
/// at least one model and no id or owner holds a line break.
pub proof fn lemma_model_list_lines(r: ModelsResponse)
    requires
        r.data@.len() >= 1,
        forall|i: int|
            0 <= i < r.data@.len() ==> single_line(#[trigger] r.data@[i].id@) && (
            r.data@[i].owned_by matches Some(o) ==> single_line(o@)),
    ensures
        split_lines(model_list_text(r)) == r.data@.map_values(|m: ModelInfo| model_line(m)),
{
    reveal_strlit("- ");
    reveal_strlit(" (");
    reveal_strlit(")");
    reveal_strlit("openai");
    let lines = r.data@.map_values(|m: ModelInfo| model_line(m));
    assert forall|i: int| 0 <= i < lines.len() implies single_line(#[trigger] lines[i]) by {
        let m = r.data@[i];
        assert(single_line(m.id@));
        let owner = or_default(m.owned_by, "openai"@);
        assert(single_line(owner));
        assert(single_line("- "@));
        assert(single_line(" ("@));
        assert(single_line(")"@));
        lemma_single_line_concat("- "@, m.id@);
        lemma_single_line_concat("- "@ + m.id@, " ("@);
        lemma_single_line_concat("- "@ + m.id@ + " ("@, owner);
        lemma_single_line_concat("- "@ + m.id@ + " ("@ + owner, ")"@);
    }
    lemma_split_join_lines(lines);
}

/// `xs` and `ys` are the same JSON values, one for one.
pub open spec fn jsons_same(xs: Seq<Json>, ys: Seq<Json>) -> bool {
    xs.len() == ys.len() && forall|i: int| 0 <= i < xs.len() ==> json_same(#[trigger] xs[i], ys[i])
}

/// Both absent, or both present and the same.
pub open spec fn opt_json_same(a: Option<Json>, b: Option<Json>) -> bool {
    match (a, b) {
        (Some(x), Some(y)) => json_same(x, y),
        (None, None) => true,
        _ => false,
    }
}

/// Both absent, or both present and the same values one for one.
pub open spec fn opt_jsons_same(a: Option<Vec<Json>>, b: Option<Vec<Json>>) -> bool {
    match (a, b) {
        (Some(x), Some(y)) => jsons_same(x@, y@),
        (None, None) => true,
        _ => false,
    }
}

/// `a` and `b` are the same message: same role, content, tool calls and
/// tool call id, strings compared by their characters.
pub open spec fn message_same(a: ChatMessage, b: ChatMessage) -> bool {
    &&& a.role@ == b.role@
    &&& opt_json_same(a.content, b.content)
    &&& opt_jsons_same(a.tool_calls, b.tool_calls)
    &&& opt_string(a.tool_call_id) == opt_string(b.tool_call_id)
}

/// `a` and `b` are the same messages, one for one.
pub open spec fn messages_same(a: Seq<ChatMessage>, b: Seq<ChatMessage>) -> bool {
    a.len() == b.len() && forall|i: int| 0 <= i < a.len() ==> message_same(#[trigger] a[i], b[i])
}

/// `a` and `b` are the same chat request, strings compared by their
/// characters.
pub open spec fn request_same(a: ChatRequest, b: ChatRequest) -> bool {
    &&& a.model@ == b.model@
    &&& messages_same(a.messages@, b.messages@)
    &&& a.temperature == b.temperature
    &&& a.max_tokens == b.max_tokens
    &&& opt_json_same(a.response_format, b.response_format)
    &&& opt_jsons_same(a.tools, b.tools)
}

proof fn lemma_message_same_refl(m: ChatMessage)
    ensures
        message_same(m, m),
{
    if let Some(c) = m.content {
        lemma_json_same_refl(c);
    }
    if let Some(xs) = m.tool_calls {
        assert forall|i: int| 0 <= i < xs@.len() implies json_same(#[trigger] xs@[i], xs@[i]) by {
            lemma_json_same_refl(xs@[i]);
        }
    }
}

proof fn lemma_text_messages_same(a: ChatMessage, b: ChatMessage, role: Seq<char>, text: Seq<char>)
    requires
        is_text_message(a, role, text),
        is_text_message(b, role, text),
    ensures
        message_same(a, b),
{
}

/// Two messages lists that both are the conversation of the same system
/// prompt, history and prompt are the same messages.
pub proof fn lemma_conversations_same(
    a: Seq<ChatMessage>,
    b: Seq<ChatMessage>,
    system: Option<Seq<char>>,
    history: Seq<ChatMessage>,
    prompt: Seq<char>,
)
    requires
        is_conversation(a, system, history, prompt),
        is_conversation(b, system, history, prompt),
    ensures
        messages_same(a, b),
{
    let k: int = if system is Some {
        1
    } else {
        0
    };
    assert forall|i: int| 0 <= i < a.len() implies message_same(#[trigger] a[i], b[i]) by {
        if i < k {
            let s = system->0;
            lemma_text_messages_same(a[0], b[0], "system"@, s);
        } else if i < k + history.len() {
            assert(a[i] == a.subrange(k, k + history.len())[i - k]);
            assert(b[i] == b.subrange(k, k + history.len())[i - k]);
            lemma_message_same_refl(a[i]);
        } else {
            lemma_text_messages_same(a.last(), b.last(), "user"@, prompt);
        }
    }
}

/// An empty history gives the same conversation as no history at all:
/// whatever `build_messages` returns for an empty parsed history and for
/// none, with the same system prompt and prompt, are the same messages.
pub proof fn lemma_empty_history(
    empty: Vec<ChatMessage>,
    system: Option<Seq<char>>,
    prompt: Seq<char>,
    with_empty: Seq<ChatMessage>,
    without: Seq<ChatMessage>,
)
    requires
        empty@.len() == 0,
        is_conversation(with_empty, system, history_of(Some(Ok(empty))), prompt),
        is_conversation(without, system, history_of(None), prompt),
    ensures
        messages_same(with_empty, without),
{
    assert(history_of(Some(Ok(empty))) =~= history_of(None));
    lemma_conversations_same(with_empty, without, system, history_of(None), prompt);
}

proof fn lemma_schema_formats_same(f: Json, g: Json, schema: Json)
    requires
        is_schema_format(f, schema),
        is_schema_format(g, schema),
    ensures
        json_same(f, g),
{
    lemma_json_same_refl(schema);
    let fs = f->Object_0;
    let gs = g->Object_0;
    let fi = fs@[1].1->Object_0;
    let gi = gs@[1].1->Object_0;
    assert(json_same(fi@[0].1, gi@[0].1));
    assert(json_same(fi@[1].1, gi@[1].1));
    assert(json_same(fi@[2].1, gi@[2].1));
    assert forall|i: int| 0 <= i < fi@.len() implies (#[trigger] fi@[i]).0@ == gi@[i].0@
        && json_same(fi@[i].1, gi@[i].1) by {}
    assert(json_same(fs@[1].1, gs@[1].1));
    assert(json_same(fs@[0].1, gs@[0].1));
    assert forall|i: int| 0 <= i < fs@.len() implies (#[trigger] fs@[i]).0@ == gs@[i].0@
        && json_same(fs@[i].1, gs@[i].1) by {}
}

/// A call of the `chat` tool sends the request that building the messages
/// and then the request from the same parameters gives: whatever
/// `prepare_chat` returns is the same request as whatever
/// `build_chat_request` returns on the messages that `build_messages`
/// returned, when the temperature passed its check and the history did
/// not fail to parse.
pub proof fn lemma_chat_is_composition(
    p: ChatParams,
    history: Option<Result<Vec<ChatMessage>, String>>,
    prepared: ChatRequest,
    messages: Seq<ChatMessage>,
    composed: ChatRequest,
)
    requires
        !(history matches Some(Err(_))),
        is_conversation(prepared.messages@, system_of(p), history_of(history), p.prompt@),
        is_chat_request(
            prepared,
            opt_string(p.model),
            prepared.messages@,
            p.temperature,
            p.max_tokens,
            schema_of(parsed_schema(opt_string(p.response_schema))),
        ),
        is_conversation(messages, system_of(p), history_of(history), p.prompt@),
        is_chat_request(
            composed,
            opt_string(p.model),
            messages,
            p.temperature,
            p.max_tokens,
            schema_of(parsed_schema(opt_string(p.response_schema))),
        ),
    ensures
        request_same(prepared, composed),
{
    lemma_conversations_same(
        prepared.messages@,
        messages,
        system_of(p),
        history_of(history),
        p.prompt@,
    );
    if let Some(s) = schema_of(parsed_schema(opt_string(p.response_schema))) {
        lemma_schema_formats_same(
            prepared.response_format->0,
            composed.response_format->0,
            s,
        );
    }
}

/// What the `chat` tool answers once the API has replied: the rendered
/// completion, or the error's text marked as an error.
pub fn chat_outcome(result: &Result<ChatResponse, ApiError>) -> (o: ToolOutcome)
    ensures
        match result {
            Ok(resp) => !o.is_error && o.text@ == chat_response_text(*resp),
            Err(e) => o.is_error && o.text@ == e.spec_message(),
        },
{
    match result {
        Ok(resp) => ToolOutcome { is_error: false, text: format_chat_response(resp) },
        Err(e) => ToolOutcome { is_error: true, text: e.message() },
    }
}

/// What the `embedding` tool answers once the API has replied: the
/// rendered vectors, or the error's text marked as an error.
pub fn embedding_outcome(result: &Result<EmbeddingResponse, ApiError>) -> (o: ToolOutcome)
    ensures
        match result {
            Ok(resp) => !o.is_error && o.text@ == embedding_response_text(*resp),
            Err(e) => o.is_error && o.text@ == e.spec_message(),
        },
{
    match result {
        Ok(resp) => ToolOutcome { is_error: false, text: format_embedding_response(resp) },
        Err(e) => ToolOutcome { is_error: true, text: e.message() },
    }
}

/// What the `list_models` tool answers once the API has replied: the
/// model list, or the error's text marked as an error.
pub fn models_outcome(result: &Result<ModelsResponse, ApiError>) -> (o: ToolOutcome)
    ensures
        match result {
            Ok(resp) => !o.is_error && o.text@ == model_list_text(*resp),
            Err(e) => o.is_error && o.text@ == e.spec_message(),
        },
{
    match result {
        Ok(resp) => ToolOutcome { is_error: false, text: format_model_list(resp) },
        Err(e) => ToolOutcome { is_error: true, text: e.message() },
    }
}

} // verus!
