use mcp_server_gpt_chat::api::{
    ApiError, ChatChoice, ChatMessage, ChatRequest, ChatResponse, ChatResponseMessage,
    EmbeddingData, EmbeddingResponse, EmbeddingUsage, OpenAIClient, Usage, BASE_URL,
    format_chat_response, format_embedding_response,
};
use mcp_server_gpt_chat::json::Json;

fn s(x: &str) -> String {
    x.to_string()
}

fn obj(members: Vec<(&str, Json)>) -> Json {
    Json::Object(members.into_iter().map(|(k, v)| (k.to_string(), v)).collect())
}

#[test]
fn client_signs_and_addresses_requests() {
    let c = OpenAIClient::new(s("sk-test"));
    assert_eq!(c.authorization(), "Bearer sk-test");
    assert_eq!(c.url("/chat/completions"), "https://api.openai.com/v1/chat/completions");
    assert_eq!(c.url("/models"), format!("{}/models", BASE_URL));
}

#[test]
fn api_error_messages() {
    let e = ApiError::Reqwest(s("error sending request"));
    assert_eq!(e.message(), "HTTP request failed: error sending request");
    let e = ApiError::Api { status: 401, body: s("{\"error\":\"bad key\"}") };
    assert_eq!(e.message(), "OpenAI API error (401 Unauthorized): {\"error\":\"bad key\"}");
    let e = ApiError::Api { status: 503, body: s("") };
    assert_eq!(e.message(), "OpenAI API error (503 Service Unavailable): ");
}

#[test]
fn text_messages() {
    let m = ChatMessage::system("be brief");
    assert_eq!(m.role, "system");
    assert_eq!(m.content, Some(Json::Str(s("be brief"))));
    assert_eq!(m.tool_calls, None);
    assert_eq!(m.tool_call_id, None);
    let m = ChatMessage::user("hello");
    assert_eq!(m.role, "user");
    assert_eq!(m.content, Some(Json::Str(s("hello"))));
}

#[test]
fn image_message() {
    let m = ChatMessage::user_with_image("what is it?", "https://x/cat.png", "low");
    assert_eq!(m.role, "user");
    let expected = Json::Array(vec![
        obj(vec![("type", Json::Str(s("text"))), ("text", Json::Str(s("what is it?")))]),
        obj(vec![
            ("type", Json::Str(s("image_url"))),
            (
                "image_url",
                obj(vec![
                    ("url", Json::Str(s("https://x/cat.png"))),
                    ("detail", Json::Str(s("low"))),
                ]),
            ),
        ]),
    ]);
    assert_eq!(m.content, Some(expected));
    assert_eq!(m.tool_calls, None);
}

#[test]
fn new_chat_request_sets_only_model_and_messages() {
    let r = ChatRequest::new("gpt-4o-mini", vec![ChatMessage::user("hi")]);
    assert_eq!(r.model, "gpt-4o-mini");
    assert_eq!(r.messages, vec![ChatMessage::user("hi")]);
    assert_eq!(r.temperature, None);
    assert_eq!(r.max_tokens, None);
    assert_eq!(r.response_format, None);
    assert_eq!(r.tools, None);
}

fn choice(content: Option<&str>, calls: Option<Vec<Json>>, reason: Option<&str>) -> ChatChoice {
    ChatChoice {
        message: ChatResponseMessage {
            role: s("assistant"),
            content: content.map(s),
            tool_calls: calls,
        },
        finish_reason: reason.map(s),
    }
}

#[test]
fn chat_response_full() {
    let resp = ChatResponse {
        choices: vec![choice(Some("Hello!"), None, Some("stop"))],
        usage: Some(Usage { prompt_tokens: 12, completion_tokens: 3, total_tokens: 15 }),
    };
    assert_eq!(
        format_chat_response(&resp),
        "Hello!\n[finish_reason: stop]\n[tokens: 12 prompt + 3 completion = 15 total]"
    );
}

#[test]
fn chat_response_tool_calls_and_several_choices() {
    let resp = ChatResponse {
        choices: vec![
            choice(
                None,
                Some(vec![obj(vec![
                    ("id", Json::Str(s("call_1"))),
                    ("type", Json::Str(s("function"))),
                    ("n", Json::Number(s("1.5"))),
                ])]),
                Some("tool_calls"),
            ),
            choice(Some("b"), Some(vec![]), None),
        ],
        usage: None,
    };
    assert_eq!(
        format_chat_response(&resp),
        "Tool calls: [\n  {\n    \"id\": \"call_1\",\n    \"n\": 1.5,\n    \"type\": \"function\"\n  }\n]\n\
         [finish_reason: tool_calls]\nb\nTool calls: []"
    );
}

#[test]
fn chat_response_empty() {
    let resp = ChatResponse { choices: vec![], usage: None };
    assert_eq!(format_chat_response(&resp), "");
    let resp = ChatResponse {
        choices: vec![choice(None, None, None)],
        usage: Some(Usage { prompt_tokens: 0, completion_tokens: 0, total_tokens: 0 }),
    };
    assert_eq!(format_chat_response(&resp), "[tokens: 0 prompt + 0 completion = 0 total]");
}

fn values(xs: &[f32]) -> Vec<String> {
    xs.iter().map(|v| format!("{v:.6}")).collect()
}

#[test]
fn embedding_response_previews_five_values() {
    let resp = EmbeddingResponse {
        data: vec![
            EmbeddingData { embedding: values(&[0.1, -0.25, 0.5, 1.0, 2.0, 3.0, 4.0]), index: 0 },
            EmbeddingData { embedding: values(&[0.5]), index: 1 },
        ],
        usage: Some(EmbeddingUsage { prompt_tokens: 4, total_tokens: 4 }),
    };
    assert_eq!(
        format_embedding_response(&resp),
        "[0] dim=7 [0.100000, -0.250000, 0.500000, 1.000000, 2.000000, ...]\n\
         [1] dim=1 [0.500000, ...]\n\
         [tokens: 4]"
    );
}

#[test]
fn embedding_response_without_usage() {
    let resp = EmbeddingResponse {
        data: vec![EmbeddingData { embedding: vec![], index: 3 }],
        usage: None,
    };
    assert_eq!(format_embedding_response(&resp), "[3] dim=0 [, ...]");
    let resp = EmbeddingResponse { data: vec![], usage: None };
    assert_eq!(format_embedding_response(&resp), "");
}

#[test]
fn embedding_text_has_one_line_per_vector() {
    let resp = EmbeddingResponse {
        data: vec![
            EmbeddingData { embedding: values(&[1.5, 2.5]), index: 0 },
            EmbeddingData { embedding: values(&[0.0]), index: 1 },
        ],
        usage: Some(EmbeddingUsage { prompt_tokens: 2, total_tokens: 2 }),
    };
    let text = format_embedding_response(&resp);
    let lines: Vec<&str> = text.split('\n').collect();
    assert_eq!(
        lines,
        vec!["[0] dim=2 [1.500000, 2.500000, ...]", "[1] dim=1 [0.000000, ...]", "[tokens: 2]"]
    );
}

#[test]
fn chat_response_concatenation() {
    let first = ChatResponse { choices: vec![choice(Some("a"), None, Some("stop"))], usage: None };
    let second = ChatResponse {
        choices: vec![choice(Some("b"), None, None)],
        usage: Some(Usage { prompt_tokens: 1, completion_tokens: 2, total_tokens: 3 }),
    };
    let whole = ChatResponse {
        choices: vec![choice(Some("a"), None, Some("stop")), choice(Some("b"), None, None)],
        usage: Some(Usage { prompt_tokens: 1, completion_tokens: 2, total_tokens: 3 }),
    };
    assert_eq!(
        format_chat_response(&whole),
        format!("{}\n{}", format_chat_response(&first), format_chat_response(&second))
    );
}
