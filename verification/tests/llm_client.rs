use phraser::llm_client::{
    build_headers, chat_outcome, fetch_gemini_models, fetch_models, fetched_models, gemini_model_ids,
    gemini_outcome, is_success, listed_model_ids, models_outcome, send_chat_completion,
    send_chat_completion_with_schema, send_chat_completion_with_system, ChatChoice,
    ChatCompletionResponse, ChatDispatch, ChatMessageResponse, HttpReply, ModelsDispatch,
    PHRASER_REFERER, PHRASER_USER_AGENT, REQUEST_TIMEOUT_SECS,
};
use phraser::settings::{
    PostProcessProvider, PROVIDER_ID_ANTHROPIC, PROVIDER_ID_GEMINI, PROVIDER_ID_OPENAI,
};
use reqwest::header::{AUTHORIZATION, CONTENT_TYPE, REFERER, USER_AGENT};

fn make_provider(id: &str, base_url: &str) -> PostProcessProvider {
    PostProcessProvider {
        id: id.to_string(),
        label: id.to_string(),
        base_url: base_url.to_string(),
        allow_base_url_edit: false,
        requires_api_key: true,
        models_endpoint: None,
        supports_structured_output: false,
    }
}

fn document(source: &str) -> serde_json::Value {
    serde_json::from_str(source).unwrap()
}

#[test]
fn build_headers_common_fields() {
    let provider = make_provider("openai", "https://api.openai.com/v1");
    let headers = build_headers(&provider, "sk-test-key").unwrap();

    assert_eq!(headers.get(CONTENT_TYPE).unwrap(), "application/json");
    assert!(headers.get(USER_AGENT).is_some());
    assert!(headers.get(REFERER).is_some());
}

#[test]
fn build_headers_bearer_auth_for_openai() {
    let provider = make_provider("openai", "https://api.openai.com/v1");
    let headers = build_headers(&provider, "sk-test-key").unwrap();

    assert_eq!(headers.get(AUTHORIZATION).unwrap(), "Bearer sk-test-key");
}

#[test]
fn build_headers_anthropic_uses_x_api_key() {
    let provider = make_provider(PROVIDER_ID_ANTHROPIC, "https://api.anthropic.com/v1");
    let headers = build_headers(&provider, "sk-ant-test").unwrap();

    assert_eq!(headers.get("x-api-key").unwrap(), "sk-ant-test");
    assert_eq!(headers.get("anthropic-version").unwrap(), "2023-06-01");
    assert!(headers.get(AUTHORIZATION).is_none());
}

#[test]
fn build_headers_empty_api_key_no_auth() {
    let provider = make_provider("openai", "https://api.openai.com/v1");
    let headers = build_headers(&provider, "").unwrap();

    assert!(headers.get(AUTHORIZATION).is_none());
}

#[test]
fn referer_header_matches_constant() {
    let provider = make_provider(PROVIDER_ID_OPENAI, "https://api.openai.com/v1");
    let headers = build_headers(&provider, "key").unwrap();
    assert_eq!(headers.get(REFERER).unwrap().to_str().unwrap(), PHRASER_REFERER);
}

#[test]
fn user_agent_header_matches_constant() {
    let provider = make_provider(PROVIDER_ID_OPENAI, "https://api.openai.com/v1");
    let headers = build_headers(&provider, "key").unwrap();
    assert_eq!(headers.get(USER_AGENT).unwrap().to_str().unwrap(), PHRASER_USER_AGENT);
}

#[test]
fn headers_hold_nothing_else() {
    let provider = make_provider("openai", "https://api.openai.com/v1");
    assert_eq!(build_headers(&provider, "").unwrap().len(), 4);
    let headers = build_headers(&provider, "k").unwrap();
    assert_eq!(headers.len(), 5);
    assert_eq!(headers.get("X-Title").unwrap(), "Parler");
    let provider = make_provider(PROVIDER_ID_ANTHROPIC, "https://api.anthropic.com/v1");
    assert_eq!(build_headers(&provider, "").unwrap().len(), 4);
    assert_eq!(build_headers(&provider, "k").unwrap().len(), 6);
}

#[test]
fn control_characters_in_a_key_are_refused() {
    let openai = make_provider("openai", "https://api.openai.com/v1");
    assert_eq!(
        build_headers(&openai, "a\nb").err(),
        Some("Invalid authorization header value: failed to parse header value".to_string())
    );
    let anthropic = make_provider(PROVIDER_ID_ANTHROPIC, "https://api.anthropic.com/v1");
    assert_eq!(
        build_headers(&anthropic, "a\u{7f}b").err(),
        Some("Invalid API key header value: failed to parse header value".to_string())
    );
    assert!(build_headers(&openai, "a\tb").is_ok());
    let headers = build_headers(&openai, "ä").unwrap();
    assert_eq!(headers.get(AUTHORIZATION).unwrap().as_bytes(), "Bearer ä".as_bytes());
}

#[test]
fn chat_request_holds_the_conversation() {
    let provider = make_provider("openai", "https://api.openai.com/v1//");
    let sent = send_chat_completion_with_schema(
        &provider,
        "key".to_string(),
        "gpt-4",
        "Hello".to_string(),
        Some("You are helpful.".to_string()),
        Some(document("{\"type\": \"object\"}")),
    );
    match sent {
        Ok(ChatDispatch::Http { url, headers, body }) => {
            assert_eq!(url, "https://api.openai.com/v1/chat/completions");
            assert_eq!(headers.get(AUTHORIZATION).unwrap(), "Bearer key");
            assert_eq!(body.model, "gpt-4");
            assert_eq!(body.messages.len(), 2);
            assert_eq!(body.messages[0].role, "system");
            assert_eq!(body.messages[0].content, "You are helpful.");
            assert_eq!(body.messages[1].role, "user");
            assert_eq!(body.messages[1].content, "Hello");
            let format = body.response_format.unwrap();
            assert_eq!(format.format_type, "json_schema");
            assert_eq!(format.json_schema.name, "transcription_output");
            assert!(format.json_schema.strict);
            assert_eq!(format.json_schema.schema, document("{\"type\": \"object\"}"));
        }
        _ => panic!("not sent by HTTP"),
    }
}

#[test]
fn schema_is_sent_as_given() {
    let provider = make_provider("openai", "https://api.openai.com/v1");
    let schema = document("{\"minLength\": 3, \"maxLength\": 4096, \"weight\": 0.5}");
    match send_chat_completion_with_schema(
        &provider,
        "key".to_string(),
        "gpt-4",
        "Hello".to_string(),
        Some(String::new()),
        Some(schema.clone()),
    ) {
        Ok(ChatDispatch::Http { body, .. }) => {
            assert_eq!(body.response_format.unwrap().json_schema.schema, schema);
            assert_eq!(body.messages.len(), 2);
            assert_eq!(body.messages[0].content, "");
        }
        _ => panic!("not sent by HTTP"),
    }
}

#[test]
fn plain_chat_request_is_one_message() {
    let provider = make_provider("openai", "https://api.openai.com/v1");
    match send_chat_completion(&provider, String::new(), "m", "Hi".to_string()) {
        Ok(ChatDispatch::Http { body, .. }) => {
            assert_eq!(body.messages.len(), 1);
            assert_eq!(body.messages[0].role, "user");
            assert!(body.response_format.is_none());
        }
        _ => panic!("not sent by HTTP"),
    }
    match send_chat_completion_with_system(
        &provider,
        String::new(),
        "m",
        "Hi".to_string(),
        "S".to_string(),
    ) {
        Ok(ChatDispatch::Http { body, .. }) => {
            assert_eq!(body.messages.len(), 2);
            assert_eq!(body.messages[0].content, "S");
            assert!(body.response_format.is_none());
        }
        _ => panic!("not sent by HTTP"),
    }
    assert!(send_chat_completion(&provider, "\r".to_string(), "m", "Hi".to_string()).is_err());
}

#[test]
fn gemini_goes_to_its_own_client() {
    let provider = make_provider(PROVIDER_ID_GEMINI, "https://example.org");
    match send_chat_completion(&provider, "\n".to_string(), "flash", "Hi".to_string()) {
        Ok(ChatDispatch::Gemini { api_key, model, system_prompt, user_content }) => {
            assert_eq!(api_key, "\n");
            assert_eq!(model, "flash");
            assert_eq!(system_prompt, "");
            assert_eq!(user_content, "Hi");
        }
        _ => panic!("not sent to Gemini"),
    }
}

fn answer(content: Option<&str>) -> ChatChoice {
    ChatChoice { message: ChatMessageResponse { content: content.map(|c| c.to_string()) } }
}

#[test]
fn chat_outcome_is_the_first_answer() {
    let response = ChatCompletionResponse { choices: vec![answer(Some("a")), answer(Some("b"))] };
    assert_eq!(chat_outcome(HttpReply::Received(response)), Ok(Some("a".to_string())));
    let response = ChatCompletionResponse { choices: vec![answer(None), answer(Some("b"))] };
    assert_eq!(chat_outcome(HttpReply::Received(response)), Ok(None));
    let response = ChatCompletionResponse { choices: vec![] };
    assert_eq!(chat_outcome(HttpReply::Received(response)), Ok(None));
}

#[test]
fn chat_failures_are_named() {
    assert_eq!(
        chat_outcome(HttpReply::NoClient("tls".to_string())),
        Err("Failed to build HTTP client: tls".to_string())
    );
    assert_eq!(
        chat_outcome(HttpReply::NotSent("dns".to_string())),
        Err("HTTP request failed: dns".to_string())
    );
    assert_eq!(
        chat_outcome(HttpReply::Refused { status: 404, body: Some("nope".to_string()) }),
        Err("API request failed with status 404 Not Found: nope".to_string())
    );
    assert_eq!(
        chat_outcome(HttpReply::Refused { status: 599, body: None }),
        Err("API request failed with status 599 <unknown status code>: Failed to read error response"
            .to_string())
    );
    assert_eq!(
        chat_outcome(HttpReply::Unreadable("eof".to_string())),
        Err("Failed to parse API response: eof".to_string())
    );
}

#[test]
fn gemini_outcome_drops_empty_text() {
    assert_eq!(gemini_outcome(Ok("a".to_string())), Ok(Some("a".to_string())));
    assert_eq!(gemini_outcome(Ok(String::new())), Ok(None));
    assert_eq!(
        gemini_outcome(Err("quota".to_string())),
        Err("Gemini API error: quota".to_string())
    );
}

#[test]
fn success_is_a_status_of_the_two_hundreds() {
    assert!(is_success(200));
    assert!(is_success(299));
    assert!(!is_success(199));
    assert!(!is_success(300));
    assert_eq!(REQUEST_TIMEOUT_SECS, 30);
}

#[test]
fn models_are_asked_for() {
    let provider = make_provider("openai", "https://api.openai.com/v1/");
    match fetch_models(&provider, "key".to_string()) {
        Ok(ModelsDispatch::Http { url, headers }) => {
            assert_eq!(url, "https://api.openai.com/v1/models");
            assert_eq!(headers.get(AUTHORIZATION).unwrap(), "Bearer key");
        }
        _ => panic!("not sent by HTTP"),
    }
    assert!(fetch_models(&provider, "\n".to_string()).is_err());
    let provider = make_provider(PROVIDER_ID_GEMINI, "https://example.org");
    assert!(matches!(
        fetch_models(&provider, "key".to_string()),
        Ok(ModelsDispatch::Gemini { .. })
    ));
    match fetch_gemini_models("key") {
        ModelsDispatch::Gemini { url, fields } => {
            assert_eq!(url, "https://generativelanguage.googleapis.com/v1beta/models");
            assert_eq!(
                fields,
                vec![
                    ("x-goog-api-key".to_string(), "key".to_string()),
                    ("user-agent".to_string(), PHRASER_USER_AGENT.to_string()),
                    ("referer".to_string(), PHRASER_REFERER.to_string()),
                ]
            );
        }
        _ => panic!("not sent to Gemini"),
    }
}

#[test]
fn model_lists_are_read_in_both_shapes() {
    let list = document(
        "{\"data\": [{\"id\": \"b\", \"name\": \"x\"}, {\"name\": \"a\"}, {\"id\": 3}, 4, {\"id\": 1, \"name\": \"c\"}]}",
    );
    assert_eq!(listed_model_ids(&list), vec!["b", "a", "c"]);
    assert_eq!(listed_model_ids(&document("[\"m1\", 2, \"m2\"]")), vec!["m1", "m2"]);
    assert!(listed_model_ids(&document("{\"data\": \"no\"}")).is_empty());
    assert!(listed_model_ids(&document("null")).is_empty());
}

#[test]
fn gemini_list_keeps_gemini_models() {
    let list = document(
        "{\"models\": [{\"name\": \"models/gemini-2.5-flash\"}, {\"name\": \"models/palm\"}, {\"name\": \"gemini-pro\"}, {\"id\": \"gemini\"}]}",
    );
    assert_eq!(gemini_model_ids(&list), vec!["gemini-2.5-flash", "gemini-pro"]);
    assert!(gemini_model_ids(&document("{\"data\": []}")).is_empty());
    assert_eq!(
        models_outcome(true, HttpReply::Received(list)),
        Ok(vec!["gemini-2.5-flash".to_string(), "gemini-pro".to_string()])
    );
}

#[test]
fn model_list_failures_are_named() {
    for (gemini, expected) in [
        (
            false,
            [
                "Failed to build HTTP client: x",
                "Failed to fetch models: x",
                "Model list request failed (500 Internal Server Error): Unknown error",
                "Failed to parse response: x",
            ],
        ),
        (
            true,
            [
                "Failed to build Gemini HTTP client: x",
                "Failed to fetch Gemini models: x",
                "Gemini model list request failed (500 Internal Server Error): Unknown error",
                "Failed to parse Gemini response: x",
            ],
        ),
    ] {
        let x = || "x".to_string();
        assert_eq!(models_outcome(gemini, HttpReply::NoClient(x())), Err(expected[0].to_string()));
        assert_eq!(models_outcome(gemini, HttpReply::NotSent(x())), Err(expected[1].to_string()));
        assert_eq!(
            models_outcome(gemini, HttpReply::Refused { status: 500, body: None }),
            Err(expected[2].to_string())
        );
        assert_eq!(
            models_outcome(gemini, HttpReply::Unreadable(x())),
            Err(expected[3].to_string())
        );
    }
    assert_eq!(
        models_outcome(false, HttpReply::Received(document("[\"m\"]"))),
        Ok(vec!["m".to_string()])
    );
}

#[test]
fn reply_is_read_as_the_list_that_was_asked_for() {
    let list = || {
        HttpReply::Received(document(
            "{\"data\": [{\"id\": \"gpt\"}], \"models\": [{\"name\": \"models/gemini-pro\"}]}",
        ))
    };
    let provider = make_provider("openai", "https://api.openai.com/v1");
    let dispatch = fetch_models(&provider, "key".to_string()).ok().unwrap();
    assert_eq!(fetched_models(&dispatch, list()), Ok(vec!["gpt".to_string()]));
    let provider = make_provider(PROVIDER_ID_GEMINI, "https://example.org");
    let dispatch = fetch_models(&provider, "key".to_string()).ok().unwrap();
    assert_eq!(fetched_models(&dispatch, list()), Ok(vec!["gemini-pro".to_string()]));
    assert_eq!(
        fetched_models(&dispatch, HttpReply::NotSent("dns".to_string())),
        Err("Failed to fetch Gemini models: dns".to_string())
    );
}
