use mcp_server_gpt_chat::api::{
    ApiError, ChatChoice, ChatMessage, ChatResponse, ChatResponseMessage, EmbeddingData,
    EmbeddingResponse, ModelInfo, ModelsResponse,
};
use mcp_server_gpt_chat::json::Json;
use mcp_server_gpt_chat::params::{ChatParams, EmbeddingParams, VisionParams};
use mcp_server_gpt_chat::server::{
    DEFAULT_DETAIL, DEFAULT_EMBEDDING_MODEL, DEFAULT_MODEL, ToolOutcome, build_chat_request,
    build_chat_request_parsed, build_messages, chat_outcome, embedding_outcome, format_model_list,
    models_outcome, prepare_chat, prepare_embedding, prepare_embedding_text, prepare_vision,
    validate_image_url,
};

fn s(x: &str) -> String {
    x.to_string()
}

fn obj(members: Vec<(&str, Json)>) -> Json {
    Json::Object(members.into_iter().map(|(k, v)| (k.to_string(), v)).collect())
}

fn history() -> Vec<ChatMessage> {
    vec![
        ChatMessage { role: s("user"), content: Some(Json::Str(s("hi"))), tool_calls: None, tool_call_id: None },
        ChatMessage { role: s("assistant"), content: Some(Json::Str(s("hello"))), tool_calls: None, tool_call_id: None },
    ]
}

fn chat_params() -> ChatParams {
    ChatParams {
        prompt: s("and now?"),
        system_prompt: None,
        messages: None,
        model: None,
        temperature: None,
        max_tokens: None,
        response_schema: None,
    }
}

#[test]
fn messages_prompt_only() {
    let ms = build_messages(None, None, "hello").unwrap();
    assert_eq!(ms, vec![ChatMessage::user("hello")]);
}

#[test]
fn messages_system_history_prompt() {
    let ms = build_messages(Some("be brief"), Some(Ok(history())), "and now?").unwrap();
    let mut expected = vec![ChatMessage::system("be brief")];
    expected.extend(history());
    expected.push(ChatMessage::user("and now?"));
    assert_eq!(ms, expected);
}

#[test]
fn messages_bad_history() {
    let r = build_messages(Some("sys"), Some(Err(s("expected value at line 1 column 1"))), "p");
    assert_eq!(r, Err(s("Invalid messages JSON: expected value at line 1 column 1")));
}

#[test]
fn chat_request_defaults() {
    let r = build_chat_request(None, vec![ChatMessage::user("x")], None, None, None).unwrap();
    assert_eq!(r.model, "gpt-4o");
    assert_eq!(r.model, DEFAULT_MODEL);
    assert_eq!(r.response_format, None);
    assert_eq!(r.tools, None);
}

#[test]
fn chat_request_with_schema() {
    let schema = obj(vec![("type", Json::Str(s("object")))]);
    let r = build_chat_request_parsed(
        Some("o1"),
        vec![ChatMessage::user("x")],
        Some(0x3f00_0000),
        Some(100),
        Some(Ok(obj(vec![("type", Json::Str(s("object")))]))),
    )
    .unwrap();
    assert_eq!(r.model, "o1");
    assert_eq!(r.temperature, Some(0x3f00_0000));
    assert_eq!(r.max_tokens, Some(100));
    let expected = obj(vec![
        ("type", Json::Str(s("json_schema"))),
        (
            "json_schema",
            obj(vec![
                ("name", Json::Str(s("structured_output"))),
                ("strict", Json::Bool(true)),
                ("schema", schema),
            ]),
        ),
    ]);
    assert_eq!(r.response_format, Some(expected));
}

#[test]
fn chat_request_bad_schema() {
    let r = build_chat_request_parsed(None, vec![], None, None, Some(Err(s("EOF while parsing"))));
    assert_eq!(r, Err(s("Invalid response_schema JSON: EOF while parsing")));
}

#[test]
fn chat_request_parses_the_schema_text() {
    let r = build_chat_request(
        None,
        vec![ChatMessage::user("x")],
        None,
        None,
        Some("{\"type\": \"object\", \"required\": [\"a\"]}"),
    )
    .unwrap();
    let schema = obj(vec![
        ("required", Json::Array(vec![Json::Str(s("a"))])),
        ("type", Json::Str(s("object"))),
    ]);
    let expected = obj(vec![
        ("type", Json::Str(s("json_schema"))),
        (
            "json_schema",
            obj(vec![
                ("name", Json::Str(s("structured_output"))),
                ("strict", Json::Bool(true)),
                ("schema", schema),
            ]),
        ),
    ]);
    assert_eq!(r.response_format, Some(expected));
    let r = build_chat_request(None, vec![], None, None, Some("{oops"));
    assert_eq!(r, Err(s("Invalid response_schema JSON: key must be a string at line 1 column 2")));
    let r = build_chat_request(None, vec![], None, None, None).unwrap();
    assert_eq!(r.response_format, None);
}

#[test]
fn chat_refusals_come_in_order() {
    let mut p = chat_params();
    p.messages = Some(s("[oops"));
    p.response_schema = Some(s("{oops"));
    let r = prepare_chat(&p, Err(s("temperature must be between 0.0 and 2.0, got 3")), Some(Err(s("e1"))));
    assert_eq!(r, Err(s("temperature must be between 0.0 and 2.0, got 3")));
    let r = prepare_chat(&p, Ok(()), Some(Err(s("e1"))));
    assert_eq!(r, Err(s("Invalid messages JSON: e1")));
    let r = prepare_chat(&p, Ok(()), Some(Ok(vec![])));
    assert_eq!(r, Err(s("Invalid response_schema JSON: key must be a string at line 1 column 2")));
}

#[test]
fn chat_request_from_params() {
    let mut p = chat_params();
    p.system_prompt = Some(s("sys"));
    p.messages = Some(s("[...]"));
    p.model = Some(s("gpt-4o-mini"));
    p.temperature = Some(0x3f80_0000);
    p.max_tokens = Some(5);
    let r = prepare_chat(&p, Ok(()), Some(Ok(history()))).unwrap();
    let mut expected = vec![ChatMessage::system("sys")];
    expected.extend(history());
    expected.push(ChatMessage::user("and now?"));
    assert_eq!(r.messages, expected);
    assert_eq!(r.model, "gpt-4o-mini");
    assert_eq!(r.temperature, Some(0x3f80_0000));
    assert_eq!(r.max_tokens, Some(5));
    assert_eq!(r.response_format, None);
    let r = prepare_chat(&chat_params(), Ok(()), None).unwrap();
    assert_eq!(r.messages, vec![ChatMessage::user("and now?")]);
    assert_eq!(r.model, "gpt-4o");
}

fn vision_params(url: &str) -> VisionParams {
    VisionParams {
        prompt: s("describe"),
        image_url: s(url),
        detail: None,
        model: None,
        temperature: None,
        max_tokens: None,
    }
}

#[test]
fn image_urls() {
    assert_eq!(validate_image_url("http://a/b.png"), Ok(()));
    assert_eq!(validate_image_url("https://a/b.png"), Ok(()));
    let err = Err(s("image_url must start with http:// or https://"));
    assert_eq!(validate_image_url("ftp://a/b.png"), err);
    assert_eq!(validate_image_url("data:image/png;base64,AAAA"), err);
    assert_eq!(validate_image_url(""), err);
    assert_eq!(validate_image_url("https:/a"), err);
}

#[test]
fn vision_refusals_come_in_order() {
    let r = prepare_vision(&vision_params("file:///etc/x"), Err(s("bad temperature")));
    assert_eq!(r, Err(s("image_url must start with http:// or https://")));
    let r = prepare_vision(&vision_params("https://x/y.png"), Err(s("bad temperature")));
    assert_eq!(r, Err(s("bad temperature")));
}

#[test]
fn vision_request() {
    let r = prepare_vision(&vision_params("https://x/y.png"), Ok(())).unwrap();
    assert_eq!(r.messages, vec![ChatMessage::user_with_image("describe", "https://x/y.png", "high")]);
    assert_eq!(DEFAULT_DETAIL, "high");
    assert_eq!(r.model, "gpt-4o");
    assert_eq!(r.response_format, None);
    let mut p = vision_params("http://x/y.png");
    p.detail = Some(s("low"));
    p.model = Some(s("gpt-4-turbo"));
    p.max_tokens = Some(300);
    let r = prepare_vision(&p, Ok(())).unwrap();
    assert_eq!(r.messages, vec![ChatMessage::user_with_image("describe", "http://x/y.png", "low")]);
    assert_eq!(r.model, "gpt-4-turbo");
    assert_eq!(r.max_tokens, Some(300));
}

#[test]
fn embedding_requests() {
    let p = EmbeddingParams { input: s("\"hello\""), model: None };
    let r = prepare_embedding(p, Ok(Json::Str(s("hello")))).unwrap();
    assert_eq!(r.model, "text-embedding-3-small");
    assert_eq!(r.model, DEFAULT_EMBEDDING_MODEL);
    assert_eq!(r.input, Json::Str(s("hello")));
    let p = EmbeddingParams { input: s("[\"a\",\"b\"]"), model: Some(s("text-embedding-3-large")) };
    let input = Json::Array(vec![Json::Str(s("a")), Json::Str(s("b"))]);
    let r = prepare_embedding(p, Ok(Json::Array(vec![Json::Str(s("a")), Json::Str(s("b"))]))).unwrap();
    assert_eq!(r.model, "text-embedding-3-large");
    assert_eq!(r.input, input);
    let p = EmbeddingParams { input: s("hello"), model: None };
    let r = prepare_embedding(p, Err(s("expected value at line 1 column 1")));
    assert_eq!(
        r,
        Err(s("Invalid input JSON (must be a quoted string or array of strings): expected value at line 1 column 1"))
    );
}

fn models() -> ModelsResponse {
    ModelsResponse {
        data: vec![
            ModelInfo { id: s("gpt-4o"), owned_by: Some(s("system")) },
            ModelInfo { id: s("my-ft"), owned_by: None },
        ],
    }
}

#[test]
fn chat_schema_from_params() {
    let mut p = chat_params();
    p.response_schema = Some(s("true"));
    let r = prepare_chat(&p, Ok(()), None).unwrap();
    let expected = obj(vec![
        ("type", Json::Str(s("json_schema"))),
        (
            "json_schema",
            obj(vec![
                ("name", Json::Str(s("structured_output"))),
                ("strict", Json::Bool(true)),
                ("schema", Json::Bool(true)),
            ]),
        ),
    ]);
    assert_eq!(r.response_format, Some(expected));
}

#[test]
fn chat_empty_history_is_no_history() {
    let a = prepare_chat(&ChatParams { messages: Some(s("[]")), ..chat_params() }, Ok(()), Some(Ok(vec![]))).unwrap();
    let b = prepare_chat(&chat_params(), Ok(()), None).unwrap();
    assert_eq!(a, b);
}

#[test]
fn chat_is_messages_then_request() {
    let mut p = chat_params();
    p.system_prompt = Some(s("sys"));
    p.model = Some(s("o1"));
    p.response_schema = Some(s("{\"type\":\"object\"}"));
    let a = prepare_chat(&p, Ok(()), Some(Ok(history()))).unwrap();
    let ms = build_messages(Some("sys"), Some(Ok(history())), "and now?").unwrap();
    let b = build_chat_request(Some("o1"), ms, None, None, Some("{\"type\":\"object\"}")).unwrap();
    assert_eq!(a, b);
}

#[test]
fn embedding_requests_from_text() {
    let p = EmbeddingParams { input: s("[\"a\", \"b\"]"), model: None };
    let r = prepare_embedding_text(p).unwrap();
    assert_eq!(r.model, "text-embedding-3-small");
    assert_eq!(r.input, Json::Array(vec![Json::Str(s("a")), Json::Str(s("b"))]));
    let p = EmbeddingParams { input: s("\"one\""), model: Some(s("m")) };
    let r = prepare_embedding_text(p).unwrap();
    assert_eq!(r.input, Json::Str(s("one")));
    assert_eq!(r.model, "m");
    let p = EmbeddingParams { input: s("[]"), model: None };
    assert_eq!(prepare_embedding_text(p).unwrap().input, Json::Array(vec![]));
    let refused = Err(s("Invalid input (must be a quoted string or array of strings)"));
    for text in ["42", "null", "{\"a\": \"b\"}", "[\"a\", 1]", "[[\"a\"]]", "true"] {
        let p = EmbeddingParams { input: s(text), model: None };
        assert_eq!(prepare_embedding_text(p), refused);
    }
    let p = EmbeddingParams { input: s("hello"), model: None };
    assert_eq!(
        prepare_embedding_text(p),
        Err(s("Invalid input JSON (must be a quoted string or array of strings): expected value at line 1 column 1"))
    );
}

#[test]
fn embedding_refuses_other_values() {
    let refused = Err(s("Invalid input (must be a quoted string or array of strings)"));
    let p = EmbeddingParams { input: s("42"), model: None };
    assert_eq!(prepare_embedding(p, Ok(Json::Number(s("42")))), refused);
    let p = EmbeddingParams { input: s("[\"a\",null]"), model: None };
    assert_eq!(prepare_embedding(p, Ok(Json::Array(vec![Json::Str(s("a")), Json::Null]))), refused);
}

#[test]
fn model_list() {
    assert_eq!(format_model_list(&models()), "- gpt-4o (system)\n- my-ft (openai)");
    assert_eq!(format_model_list(&ModelsResponse { data: vec![] }), "");
}

#[test]
fn model_list_has_one_line_per_model() {
    let text = format_model_list(&models());
    let lines: Vec<&str> = text.split('\n').collect();
    assert_eq!(lines, vec!["- gpt-4o (system)", "- my-ft (openai)"]);
}

#[test]
fn outcomes_of_successes() {
    let o = models_outcome(&Ok(models()));
    assert_eq!(o, ToolOutcome { is_error: false, text: s("- gpt-4o (system)\n- my-ft (openai)") });
    let resp = ChatResponse {
        choices: vec![ChatChoice {
            message: ChatResponseMessage { role: s("assistant"), content: Some(s("Hi")), tool_calls: None },
            finish_reason: None,
        }],
        usage: None,
    };
    let o = chat_outcome(&Ok(resp));
    assert_eq!(o, ToolOutcome { is_error: false, text: s("Hi") });
    let resp = EmbeddingResponse { data: vec![EmbeddingData { embedding: vec![s("1.000000")], index: 0 }], usage: None };
    let o = embedding_outcome(&Ok(resp));
    assert_eq!(o, ToolOutcome { is_error: false, text: s("[0] dim=1 [1.000000, ...]") });
}

#[test]
fn outcomes_of_failures() {
    let o = chat_outcome(&Err(ApiError::Api { status: 429, body: s("slow down") }));
    assert_eq!(o, ToolOutcome { is_error: true, text: s("OpenAI API error (429 Too Many Requests): slow down") });
    let o = embedding_outcome(&Err(ApiError::Reqwest(s("timed out"))));
    assert_eq!(o, ToolOutcome { is_error: true, text: s("HTTP request failed: timed out") });
    let o = models_outcome(&Err(ApiError::Api { status: 500, body: s("") }));
    assert_eq!(o, ToolOutcome { is_error: true, text: s("OpenAI API error (500 Internal Server Error): ") });
}
