//! The OpenAI API: where requests go, the request and response bodies, the
//! errors of a call, and the text that answers are rendered to.

use vstd::prelude::*;
use vstd::string::*;
use crate::json::{Json, is_json_str, json_str, member, pretty_json_array, pretty_json_text};
use crate::status::{reason_of, status_display, status_text};
use crate::text::{
    decimal, decimal_string, join, join_strings, lemma_decimal_single_line, lemma_join_append,
    lemma_join_single_line, is_decimal_text, lemma_decimal_text,
    lemma_single_line_concat, lemma_split_join_lines, push_string, single_line, split_lines,
    views,
};

verus! {

/// The root of every OpenAI API path.
pub const BASE_URL: &'static str = "https://api.openai.com/v1";

/// How long one API call may take, in seconds.
pub const REQUEST_TIMEOUT_SECS: u64 = 30;

/// Why an API call failed.
#[derive(Debug)]
pub enum ApiError {
    /// The HTTP exchange itself failed (connection, timeout, undecodable
    /// body); the text is the transport's description of the failure.
    Reqwest(String),
    /// The API answered with a status outside 200-299.
    Api { status: u16, body: String },
}

impl ApiError {
    /// The text of the error, as the tools report it.
    pub open spec fn spec_message(self) -> Seq<char> {
        match self {
            ApiError::Reqwest(e) => "HTTP request failed: "@ + e@,
            ApiError::Api { status, body } => "OpenAI API error ("@ + status_text(
                status,
                reason_of(status),
            ) + "): "@ + body@,
        }
    }

    /// The text of the error, e.g.
    /// `OpenAI API error (404 Not Found): no such model`.
    pub fn message(&self) -> (m: String)
        ensures
            m@ == self.spec_message(),
    {
        match self {
            ApiError::Reqwest(e) => {
                let mut m = String::from_str("HTTP request failed: ");
                m.append(e.as_str());
                m
            },
            ApiError::Api { status, body } => {
                let mut m = String::from_str("OpenAI API error (");
                let st = status_display(*status);
                m.append(st.as_str());
                m.append("): ");
                m.append(body.as_str());
                proof {
                    assert(m@ =~= self.spec_message());
                }
                m
            },
        }
    }
}

/// The credentials and addressing of the OpenAI API.
pub struct OpenAIClient {
    api_key: String,
}

impl OpenAIClient {
    /// The API key that the client signs its requests with.
    pub closed spec fn key(&self) -> Seq<char> {
        self.api_key@
    }

    /// A client that signs its requests with `api_key`.
    pub fn new(api_key: String) -> (c: Self)
        ensures
            c.key() == api_key@,
    {
        OpenAIClient { api_key }
    }

    /// The value of the `Authorization` header of every request.
    pub fn authorization(&self) -> (h: String)
        ensures
            h@ == "Bearer "@ + self.key(),
    {
        let mut h = String::from_str("Bearer ");
        h.append(self.api_key.as_str());
        h
    }

    /// The URL of the API `path` (which starts with `/`).
    pub fn url(&self, path: &str) -> (u: String)
        ensures
            u@ == BASE_URL@ + path@,
    {
        let mut u = String::from_str(BASE_URL);
        u.append(path);
        u
    }
}

/// One message of a chat conversation.
#[derive(Debug, PartialEq)]
pub struct ChatMessage {
    pub role: String,
    pub content: Option<Json>,
    pub tool_calls: Option<Vec<Json>>,
    pub tool_call_id: Option<String>,
}

/// `m` is a message of `role` whose content is the plain text `text`.
pub open spec fn is_text_message(m: ChatMessage, role: Seq<char>, text: Seq<char>) -> bool {
    &&& m.role@ == role
    &&& m.content matches Some(c) && is_json_str(c, text)
    &&& m.tool_calls is None
    &&& m.tool_call_id is None
}

/// `j` is the content part `{"type": "text", "text": text}`.
pub open spec fn is_text_part(j: Json, text: Seq<char>) -> bool {
    &&& j matches Json::Object(ms)
    &&& ms@.len() == 2
    &&& ms@[0].0@ == "type"@ && is_json_str(ms@[0].1, "text"@)
    &&& ms@[1].0@ == "text"@ && is_json_str(ms@[1].1, text)
}

/// `j` is the content part
/// `{"type": "image_url", "image_url": {"url": url, "detail": detail}}`.
pub open spec fn is_image_part(j: Json, url: Seq<char>, detail: Seq<char>) -> bool {
    &&& j matches Json::Object(ms)
    &&& ms@.len() == 2
    &&& ms@[0].0@ == "type"@ && is_json_str(ms@[0].1, "image_url"@)
    &&& ms@[1].0@ == "image_url"@
    &&& ms@[1].1 matches Json::Object(inner)
    &&& inner@.len() == 2
    &&& inner@[0].0@ == "url"@ && is_json_str(inner@[0].1, url)
    &&& inner@[1].0@ == "detail"@ && is_json_str(inner@[1].1, detail)
}

/// `m` is a user message made of the text `text` and the image at `url`,
/// to be looked at in `detail`.
pub open spec fn is_image_message(
    m: ChatMessage,
    text: Seq<char>,
    url: Seq<char>,
    detail: Seq<char>,
) -> bool {
    &&& m.role@ == "user"@
    &&& m.content matches Some(c) && c matches Json::Array(parts) && parts@.len() == 2
        && is_text_part(parts@[0], text) && is_image_part(parts@[1], url, detail)
    &&& m.tool_calls is None
    &&& m.tool_call_id is None
}

impl ChatMessage {
    fn text_message(role: &str, text: &str) -> (m: Self)
        ensures
            is_text_message(m, role@, text@),
    {
        ChatMessage {
            role: String::from_str(role),
            content: Some(json_str(text)),
            tool_calls: None,
            tool_call_id: None,
        }
    }

    /// A system message with the text `text`.
    pub fn system(text: &str) -> (m: Self)
        ensures
            is_text_message(m, "system"@, text@),
    {
        Self::text_message("system", text)
    }

    /// A user message with the text `text`.
    pub fn user(text: &str) -> (m: Self)
        ensures
            is_text_message(m, "user"@, text@),
    {
        Self::text_message("user", text)
    }

    /// A user message that shows the image at `image_url` with the text
    /// `text`, asking for the given level of `detail`.
    pub fn user_with_image(text: &str, image_url: &str, detail: &str) -> (m: Self)
        ensures
            is_image_message(m, text@, image_url@, detail@),
    {
        let text_part = Json::Object(vec![member("type", json_str("text")), member("text", json_str(text))]);
        let image = Json::Object(
            vec![member("url", json_str(image_url)), member("detail", json_str(detail))],
        );
        let image_part = Json::Object(vec![member("type", json_str("image_url")), member("image_url", image)]);
        ChatMessage {
            role: String::from_str("user"),
            content: Some(Json::Array(vec![text_part, image_part])),
            tool_calls: None,
            tool_call_id: None,
        }
    }
}

/// The body of a chat completion request.
#[derive(Debug, PartialEq)]
pub struct ChatRequest {
    pub model: String,
    pub messages: Vec<ChatMessage>,
    /// The sampling temperature, as the bit pattern of its IEEE 754
    /// binary32 value (`f32::to_bits`); carried, never interpreted here.
    pub temperature: Option<u32>,
    pub max_tokens: Option<u32>,
    pub response_format: Option<Json>,
    pub tools: Option<Vec<Json>>,
}

impl ChatRequest {
    /// A request to `model` with `messages` and nothing else set.
    pub fn new(model: &str, messages: Vec<ChatMessage>) -> (r: Self)
        ensures
            r.model@ == model@,
            r.messages == messages,
            r.temperature is None,
            r.max_tokens is None,
            r.response_format is None,
            r.tools is None,
    {
        ChatRequest {
            model: String::from_str(model),
            messages,
            temperature: None,
            max_tokens: None,
            response_format: None,
            tools: None,
        }
    }
}

/// Token counts of a chat completion.
#[derive(Debug, Clone, Copy, PartialEq)]
pub struct Usage {
    pub prompt_tokens: u32,
    pub completion_tokens: u32,
    pub total_tokens: u32,
}

/// The message of one completion choice.
#[derive(Debug, PartialEq)]
pub struct ChatResponseMessage {
    pub role: String,
    pub content: Option<String>,
    pub tool_calls: Option<Vec<Json>>,
}

/// One completion choice.
#[derive(Debug, PartialEq)]
pub struct ChatChoice {
    pub message: ChatResponseMessage,
    pub finish_reason: Option<String>,
}

/// The body of a chat completion answer.
#[derive(Debug, PartialEq)]
pub struct ChatResponse {
    pub choices: Vec<ChatChoice>,
    pub usage: Option<Usage>,
}

/// The body of an embedding request.
#[derive(Debug, PartialEq)]
pub struct EmbeddingRequest {
    pub model: String,
    pub input: Json,
}

/// One embedding vector of an embedding answer.
#[derive(Debug, PartialEq)]
pub struct EmbeddingData {
    /// The components of the vector, each written with six decimals
    /// (`format!("{:.6}", x)`).
    pub embedding: Vec<String>,
    pub index: usize,
}

/// Token counts of an embedding request.
#[derive(Debug, Clone, Copy, PartialEq)]
pub struct EmbeddingUsage {
    pub prompt_tokens: u32,
    pub total_tokens: u32,
}

/// The body of an embedding answer.
#[derive(Debug, PartialEq)]
pub struct EmbeddingResponse {
    pub data: Vec<EmbeddingData>,
    pub usage: Option<EmbeddingUsage>,
}

/// The body of the model list.
#[derive(Debug, PartialEq)]
pub struct ModelsResponse {
    pub data: Vec<ModelInfo>,
}

/// One available model.
#[derive(Debug, PartialEq)]
pub struct ModelInfo {
    pub id: String,
    pub owned_by: Option<String>,
}

/// The lines that one completion choice contributes: its text, its tool
/// calls and its finish reason, each where present.
pub open spec fn choice_lines(c: ChatChoice) -> Seq<Seq<char>> {
    (match c.message.content {
        Some(t) => seq![t@],
        None => Seq::empty(),
    }) + (match c.message.tool_calls {
        Some(t) => seq!["Tool calls: "@ + pretty_json_array(t@)],
        None => Seq::empty(),
    }) + (match c.finish_reason {
        Some(r) => seq!["[finish_reason: "@ + r@ + "]"@],
        None => Seq::empty(),
    })
}

/// The lines of all choices, in order.
pub open spec fn choices_lines(cs: Seq<ChatChoice>) -> Seq<Seq<char>>
    decreases cs.len(),
{
    if cs.len() == 0 {
        Seq::empty()
    } else {
        choices_lines(cs.drop_last()) + choice_lines(cs.last())
    }
}

proof fn lemma_choices_lines_append(a: Seq<ChatChoice>, b: Seq<ChatChoice>)
    ensures
        choices_lines(a + b) == choices_lines(a) + choices_lines(b),
    decreases b.len(),
{
    if b.len() == 0 {
        assert(a + b =~= a);
        assert(choices_lines(a) + choices_lines(b) =~= choices_lines(a));
    } else {
        lemma_choices_lines_append(a, b.drop_last());
        assert((a + b).drop_last() =~= a + b.drop_last());
        assert((a + b).last() == b.last());
        assert(choices_lines(a) + choices_lines(b.drop_last()) + choice_lines(b.last())
            =~= choices_lines(a) + choices_lines(b));
    }
}

/// Each field of a choice that is present gives one line, in the order
/// text, tool calls, finish reason: the text as it is, the tool calls as
/// `Tool calls: ` and their pretty-printed JSON, the finish reason as
/// `[finish_reason: F]`; absent fields give no line.
pub proof fn lemma_choice_lines_fields(c: ChatChoice)
    ensures
        ({
            let n_text: int = if c.message.content is Some {
                1
            } else {
                0
            };
            let n_calls: int = if c.message.tool_calls is Some {
                1
            } else {
                0
            };
            let n_reason: int = if c.finish_reason is Some {
                1
            } else {
                0
            };
            let ls = choice_lines(c);
            &&& ls.len() == n_text + n_calls + n_reason
            &&& c.message.content matches Some(t) ==> ls[0] == t@
            &&& c.message.tool_calls matches Some(k) ==> ls[n_text] == "Tool calls: "@
                + pretty_json_array(k@)
            &&& c.finish_reason matches Some(f) ==> ls[n_text + n_calls] == "[finish_reason: "@
                + f@ + "]"@
        }),
{
}

/// The line that reports the token counts of a chat completion.
pub open spec fn usage_line(u: Usage) -> Seq<char> {
    "[tokens: "@ + decimal(u.prompt_tokens as nat) + " prompt + "@ + decimal(
        u.completion_tokens as nat,
    ) + " completion = "@ + decimal(u.total_tokens as nat) + " total]"@
}

/// The text of a chat completion answer: the lines of its choices and, if
/// present, the token counts, one per line.
pub open spec fn chat_response_text(r: ChatResponse) -> Seq<char> {
    join(
        choices_lines(r.choices@) + match r.usage {
            Some(u) => seq![usage_line(u)],
            None => Seq::empty(),
        },
        "\n"@,
    )
}

fn push_choice_lines(parts: &mut Vec<String>, c: &ChatChoice)
    ensures
        views(final(parts)@) == views(old(parts)@) + choice_lines(*c),
{
    let ghost start = views(parts@);
    if let Some(t) = &c.message.content {
        push_string(parts, t.clone());
    }
    let ghost after_content = views(parts@);
    if let Some(t) = &c.message.tool_calls {
        let mut line = String::from_str("Tool calls: ");
        let text = pretty_json_text(t);
        line.append(text.as_str());
        push_string(parts, line);
    }
    let ghost after_calls = views(parts@);
    if let Some(r) = &c.finish_reason {
        let mut line = String::from_str("[finish_reason: ");
        line.append(r.as_str());
        line.append("]");
        push_string(parts, line);
    }
    proof {
        assert(views(parts@) =~= start + choice_lines(*c));
    }
}

fn usage_text(u: &Usage) -> (s: String)
    ensures
        s@ == usage_line(*u),
{
    let mut s = String::from_str("[tokens: ");
    let p = decimal_string(u.prompt_tokens as u64);
    s.append(p.as_str());
    s.append(" prompt + ");
    let c = decimal_string(u.completion_tokens as u64);
    s.append(c.as_str());
    s.append(" completion = ");
    let t = decimal_string(u.total_tokens as u64);
    s.append(t.as_str());
    s.append(" total]");
    proof {
        assert(s@ =~= usage_line(*u));
    }
    s
}

/// Renders a chat completion answer as text: for each choice its text,
/// `Tool calls: ...` and `[finish_reason: ...]` where present, then
/// `[tokens: P prompt + C completion = T total]` if the counts came back;
/// one per line.
pub fn format_chat_response(resp: &ChatResponse) -> (s: String)
    ensures
        s@ == chat_response_text(*resp),
{
    let mut parts: Vec<String> = Vec::new();
    let mut i: usize = 0;
    while i < resp.choices.len()
        invariant
            i <= resp.choices@.len(),
            views(parts@) == choices_lines(resp.choices@.take(i as int)),
        decreases resp.choices@.len() - i,
    {
        push_choice_lines(&mut parts, &resp.choices[i]);
        proof {
            let cs = resp.choices@;
            assert(cs.take(i + 1).drop_last() =~= cs.take(i as int));
        }
        i += 1;
    }
    proof {
        assert(resp.choices@.take(resp.choices@.len() as int) =~= resp.choices@);
    }
    if let Some(u) = &resp.usage {
        push_string(&mut parts, usage_text(u));
    }
    proof {
        assert(views(parts@) =~= choices_lines(resp.choices@) + match resp.usage {
            Some(u) => seq![usage_line(u)],
            None => Seq::<Seq<char>>::empty(),
        });
    }
    join_strings(&parts, "\n")
}

/// Rendering an answer whose choices are those of `first` followed by
/// those of `second`, with the token counts of `second`, gives the
/// rendering of `first`, a line break, then the rendering of `second`;
/// this holds when `first` has no token counts and each of the two
/// renders to at least one line.
pub proof fn lemma_chat_response_concat(first: ChatResponse, second: ChatResponse, whole: ChatResponse)
    requires
        whole.choices@ == first.choices@ + second.choices@,
        whole.usage == second.usage,
        first.usage is None,
        choices_lines(first.choices@).len() >= 1,
        choices_lines(second.choices@).len() >= 1 || second.usage is Some,
    ensures
        chat_response_text(whole) == chat_response_text(first) + "\n"@ + chat_response_text(second),
{
    let tail = match second.usage {
        Some(u) => seq![usage_line(u)],
        None => Seq::<Seq<char>>::empty(),
    };
    let l1 = choices_lines(first.choices@);
    let l2 = choices_lines(second.choices@) + tail;
    lemma_choices_lines_append(first.choices@, second.choices@);
    assert(l1 + Seq::<Seq<char>>::empty() =~= l1);
    assert(choices_lines(whole.choices@) + tail =~= l1 + l2);
    lemma_join_append(l1, l2, "\n"@);
}

/// The token line of a chat answer writes the three counts in full, in
/// decimal: `[tokens: P prompt + C completion = T total]`, where P, C and
/// T read back to the prompt, completion and total counts.
pub proof fn lemma_usage_line_counts(u: Usage)
    ensures
        exists|p: Seq<char>, c: Seq<char>, t: Seq<char>|
            #![trigger is_decimal_text(p, u.prompt_tokens as nat), is_decimal_text(c, u.completion_tokens as nat), is_decimal_text(t, u.total_tokens as nat)]
            is_decimal_text(p, u.prompt_tokens as nat) && is_decimal_text(
                c,
                u.completion_tokens as nat,
            ) && is_decimal_text(t, u.total_tokens as nat) && usage_line(u) == "[tokens: "@ + p
                + " prompt + "@ + c + " completion = "@ + t + " total]"@,
{
    lemma_decimal_text(u.prompt_tokens as nat);
    lemma_decimal_text(u.completion_tokens as nat);
    lemma_decimal_text(u.total_tokens as nat);
}

/// A one-choice answer with a text, a finish reason and token counts (and
/// no tool calls) renders as three lines: the text, `[finish_reason: F]`,
/// and `[tokens: P prompt + C completion = T total]` with the counts in
/// full.
pub proof fn lemma_chat_text_one_choice(r: ChatResponse)
    requires
        r.choices@.len() == 1,
        r.choices@[0].message.content is Some,
        r.choices@[0].message.tool_calls is None,
        r.choices@[0].finish_reason is Some,
        r.usage is Some,
    ensures
        ({
            let text = r.choices@[0].message.content->0;
            let reason = r.choices@[0].finish_reason->0;
            let u = r.usage->0;
            exists|p: Seq<char>, c: Seq<char>, t: Seq<char>|
                #![trigger is_decimal_text(p, u.prompt_tokens as nat), is_decimal_text(c, u.completion_tokens as nat), is_decimal_text(t, u.total_tokens as nat)]
                is_decimal_text(p, u.prompt_tokens as nat) && is_decimal_text(
                    c,
                    u.completion_tokens as nat,
                ) && is_decimal_text(t, u.total_tokens as nat) && chat_response_text(r) == text@
                    + "\n"@ + "[finish_reason: "@ + reason@ + "]"@ + "\n"@ + "[tokens: "@ + p
                    + " prompt + "@ + c + " completion = "@ + t + " total]"@
        }),
{
    let text = r.choices@[0].message.content->0;
    let reason = r.choices@[0].finish_reason->0;
    let u = r.usage->0;
    lemma_decimal_text(u.prompt_tokens as nat);
    lemma_decimal_text(u.completion_tokens as nat);
    lemma_decimal_text(u.total_tokens as nat);
    let cs = r.choices@;
    assert(cs.drop_last() =~= Seq::<ChatChoice>::empty());
    assert(choices_lines(cs.drop_last()) =~= Seq::<Seq<char>>::empty());
    let l1 = text@;
    let l2 = "[finish_reason: "@ + reason@ + "]"@;
    let l3 = usage_line(u);
    assert(choice_lines(cs[0]) =~= seq![l1, l2]);
    assert(choices_lines(cs) =~= seq![l1, l2]);
    assert(choices_lines(cs) + seq![l3] =~= seq![l1, l2, l3]);
    lemma_join_three(l1, l2, l3, "\n"@);
}

proof fn lemma_join_three(l1: Seq<char>, l2: Seq<char>, l3: Seq<char>, sep: Seq<char>)
    ensures
        join(seq![l1, l2, l3], sep) == l1 + sep + l2 + sep + l3,
{
    let lines = seq![l1, l2, l3];
    assert(lines.drop_last() =~= seq![l1, l2]);
    assert(seq![l1, l2].drop_last() =~= seq![l1]);
    assert(join(seq![l1], sep) == l1);
    assert(join(seq![l1, l2], sep) == l1 + sep + l2);
    assert(join(lines, sep) == join(seq![l1, l2], sep) + sep + l3);
    assert(join(lines, sep) =~= l1 + sep + l2 + sep + l3);
}

/// The components shown of an embedding: its first five.
pub open spec fn preview(values: Seq<Seq<char>>) -> Seq<Seq<char>> {
    if values.len() <= 5 {
        values
    } else {
        values.take(5)
    }
}

/// The line that describes one embedding vector:
/// `[index] dim=N [x1, ..., x5, ...]`.
pub open spec fn embedding_line(d: EmbeddingData) -> Seq<char> {
    "["@ + decimal(d.index as nat) + "] dim="@ + decimal(d.embedding@.len()) + " ["@ + join(
        preview(views(d.embedding@)),
        ", "@,
    ) + ", ...]"@
}

/// The line that reports the token count of an embedding request.
pub open spec fn embedding_usage_line(u: EmbeddingUsage) -> Seq<char> {
    "[tokens: "@ + decimal(u.total_tokens as nat) + "]"@
}

/// The line of an embedding vector writes its index and its full length
/// (its dimension) in decimal, then its first five components (all of them
/// when it has five or fewer): `[I] dim=N [x1, ..., x5, ...]`.
pub proof fn lemma_embedding_line_parts(d: EmbeddingData)
    ensures
        ({
            let n = d.embedding@.len();
            let shown: int = if n <= 5 {
                n as int
            } else {
                5
            };
            exists|i: Seq<char>, m: Seq<char>|
                #![trigger is_decimal_text(i, d.index as nat), is_decimal_text(m, n)]
                is_decimal_text(i, d.index as nat) && is_decimal_text(m, n) && embedding_line(d)
                    == "["@ + i + "] dim="@ + m + " ["@ + join(
                    views(d.embedding@).take(shown),
                    ", "@,
                ) + ", ...]"@
        }),
{
    lemma_decimal_text(d.index as nat);
    lemma_decimal_text(d.embedding@.len());
    assert(views(d.embedding@).take(d.embedding@.len() as int) =~= views(d.embedding@));
}

/// The token line of an embedding answer writes the total count in full,
/// in decimal: `[tokens: T]`.
pub proof fn lemma_embedding_usage_line_count(u: EmbeddingUsage)
    ensures
        exists|t: Seq<char>|
            #![trigger is_decimal_text(t, u.total_tokens as nat)]
            is_decimal_text(t, u.total_tokens as nat) && embedding_usage_line(u) == "[tokens: "@ + t
                + "]"@,
{
    lemma_decimal_text(u.total_tokens as nat);
}

/// The text of an embedding answer: one line per vector, then the total
/// token count if it came back.
pub open spec fn embedding_response_text(r: EmbeddingResponse) -> Seq<char> {
    join(
        r.data@.map_values(|d: EmbeddingData| embedding_line(d)) + match r.usage {
            Some(u) => seq![embedding_usage_line(u)],
            None => Seq::empty(),
        },
        "\n"@,
    )
}

fn embedding_text(d: &EmbeddingData) -> (s: String)
    ensures
        s@ == embedding_line(*d),
{
    let n = d.embedding.len();
    let shown = if n <= 5 {
        n
    } else {
        5
    };
    let mut first: Vec<String> = Vec::new();
    let mut i: usize = 0;
    while i < shown
        invariant
            shown <= n,
            n == d.embedding@.len(),
            shown == (if n <= 5 { n } else { 5 }),
            i <= shown,
            views(first@) == views(d.embedding@).take(i as int),
        decreases shown - i,
    {
        push_string(&mut first, d.embedding[i].clone());
        proof {
            assert(views(d.embedding@).take(i + 1) =~= views(d.embedding@).take(i as int).push(
                d.embedding@[i as int]@,
            ));
        }
        i += 1;
    }
    proof {
        assert(views(first@) =~= preview(views(d.embedding@)));
    }
    let mut s = String::from_str("[");
    let idx = decimal_string(d.index as u64);
    s.append(idx.as_str());
    s.append("] dim=");
    let dim = decimal_string(n as u64);
    s.append(dim.as_str());
    s.append(" [");
    let joined = join_strings(&first, ", ");
    s.append(joined.as_str());
    s.append(", ...]");
    proof {
        assert(s@ =~= embedding_line(*d));
    }
    s
}

/// Renders an embedding answer as text: per vector
/// `[index] dim=N [x1, ..., x5, ...]`, then `[tokens: T]` if the count came
/// back; one per line.
pub fn format_embedding_response(resp: &EmbeddingResponse) -> (s: String)
    ensures
        s@ == embedding_response_text(*resp),
{
    let mut parts: Vec<String> = Vec::new();
    let mut i: usize = 0;
    while i < resp.data.len()
        invariant
            i <= resp.data@.len(),
            views(parts@) == resp.data@.take(i as int).map_values(
                |d: EmbeddingData| embedding_line(d),
            ),
        decreases resp.data@.len() - i,
    {
        push_string(&mut parts, embedding_text(&resp.data[i]));
        proof {
            assert(resp.data@.take(i + 1).map_values(|d: EmbeddingData| embedding_line(d))
                =~= resp.data@.take(i as int).map_values(|d: EmbeddingData| embedding_line(d)).push(
                embedding_line(resp.data@[i as int]),
            ));
        }
        i += 1;
    }
    proof {
        assert(resp.data@.take(resp.data@.len() as int) =~= resp.data@);
    }
    if let Some(u) = &resp.usage {
        let mut line = String::from_str("[tokens: ");
        let t = decimal_string(u.total_tokens as u64);
        line.append(t.as_str());
        line.append("]");
        push_string(&mut parts, line);
    }
    proof {
        assert(views(parts@) =~= resp.data@.map_values(|d: EmbeddingData| embedding_line(d))
            + match resp.usage {
            Some(u) => seq![embedding_usage_line(u)],
            None => Seq::<Seq<char>>::empty(),
        });
    }
    join_strings(&parts, "\n")
}

proof fn lemma_embedding_line_single(d: EmbeddingData)
    requires
        forall|i: int| 0 <= i < d.embedding@.len() ==> single_line(#[trigger] d.embedding@[i]@),
    ensures
        single_line(embedding_line(d)),
{
    reveal_strlit("[");
    reveal_strlit("] dim=");
    reveal_strlit(" [");
    reveal_strlit(", ");
    reveal_strlit(", ...]");
    let shown = preview(views(d.embedding@));
    assert forall|i: int| 0 <= i < shown.len() implies single_line(#[trigger] shown[i]) by {
        assert(shown[i] == d.embedding@[i]@);
    }
    assert(single_line(", "@));
    lemma_join_single_line(shown, ", "@);
    lemma_decimal_single_line(d.index as nat);
    lemma_decimal_single_line(d.embedding@.len());
    let a = "["@ + decimal(d.index as nat);
    let b = a + "] dim="@;
    let c = b + decimal(d.embedding@.len());
    let e = c + " ["@;
    let f = e + join(shown, ", "@);
    assert(single_line("["@));
    assert(single_line("] dim="@));
    assert(single_line(" ["@));
    assert(single_line(", ...]"@));
    lemma_single_line_concat("["@, decimal(d.index as nat));
    lemma_single_line_concat(a, "] dim="@);
    lemma_single_line_concat(b, decimal(d.embedding@.len()));
    lemma_single_line_concat(c, " ["@);
    lemma_single_line_concat(e, join(shown, ", "@));
    lemma_single_line_concat(f, ", ...]"@);
}

/// Read line by line, the text of an embedding answer holds one line per
/// vector, in order, then the token count if it came back; this holds when
/// there is at least one such line and no rendered component holds a line
/// break.
pub proof fn lemma_embedding_response_lines(r: EmbeddingResponse)
    requires
        r.data@.len() >= 1 || r.usage is Some,
        forall|j: int, i: int|
            0 <= j < r.data@.len() && 0 <= i < r.data@[j].embedding@.len() ==> single_line(
                #[trigger] r.data@[j].embedding@[i]@,
            ),
    ensures
        split_lines(embedding_response_text(r)) == r.data@.map_values(
            |d: EmbeddingData| embedding_line(d),
        ) + match r.usage {
            Some(u) => seq![embedding_usage_line(u)],
            None => Seq::empty(),
        },
{
    let lines = r.data@.map_values(|d: EmbeddingData| embedding_line(d)) + match r.usage {
        Some(u) => seq![embedding_usage_line(u)],
        None => Seq::<Seq<char>>::empty(),
    };
    assert forall|i: int| 0 <= i < lines.len() implies single_line(#[trigger] lines[i]) by {
        if i < r.data@.len() {
            let d = r.data@[i];
            assert forall|k: int| 0 <= k < d.embedding@.len() implies single_line(
                #[trigger] d.embedding@[k]@,
            ) by {
                assert(single_line(r.data@[i].embedding@[k]@));
            }
            lemma_embedding_line_single(d);
        } else {
            let u = r.usage->0;
            reveal_strlit("[tokens: ");
            reveal_strlit("]");
            assert(single_line("[tokens: "@));
            assert(single_line("]"@));
            lemma_decimal_single_line(u.total_tokens as nat);
            lemma_single_line_concat("[tokens: "@, decimal(u.total_tokens as nat));
            lemma_single_line_concat("[tokens: "@ + decimal(u.total_tokens as nat), "]"@);
        }
    }
    lemma_split_join_lines(lines);
}

} // verus!
