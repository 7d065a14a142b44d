use phraser::post_process::{
    action_outcome, apple_outcome, build_system_prompt, call_apple_intelligence, legacy_outcome,
    post_process_transcription, process_action, strip_invisible_chars, structured_outcome,
    text_of_document, transcription_schema, ChatCall, TextStep, ACTION_SYSTEM_PROMPT,
};
use phraser::llm_client::ChatDispatch;
use phraser::settings::{
    AppSettings, PostProcessPrompt, PostProcessProvider, RecordingRetentionPeriod, TextMap,
    APPLE_INTELLIGENCE_PROVIDER_ID,
};

fn provider(id: &str, structured: bool) -> PostProcessProvider {
    PostProcessProvider {
        id: id.to_string(),
        label: id.to_string(),
        base_url: "https://example.org".to_string(),
        allow_base_url_edit: false,
        requires_api_key: true,
        models_endpoint: None,
        supports_structured_output: structured,
    }
}

fn settings(active: &str, prompt: &str) -> AppSettings {
    let mut models = TextMap::new();
    models.insert("plain".to_string(), "m-plain".to_string());
    models.insert("shaped".to_string(), "m-shaped".to_string());
    models.insert("blank".to_string(), " \t".to_string());
    models.insert(APPLE_INTELLIGENCE_PROVIDER_ID.to_string(), " 512 ".to_string());
    let mut keys = TextMap::new();
    keys.insert("shaped".to_string(), "k".to_string());
    AppSettings {
        always_on_microphone: false,
        selected_language: "auto".to_string(),
        long_audio_model: None,
        post_process_provider_id: active.to_string(),
        post_process_providers: vec![
            provider("plain", false),
            provider("shaped", true),
            provider("blank", false),
            provider(APPLE_INTELLIGENCE_PROVIDER_ID, true),
        ],
        post_process_models: models,
        post_process_api_keys: keys,
        post_process_prompts: vec![
            PostProcessPrompt {
                id: "other".to_string(),
                name: "Other".to_string(),
                prompt: "no".to_string(),
            },
            PostProcessPrompt {
                id: "p".to_string(),
                name: "P".to_string(),
                prompt: prompt.to_string(),
            },
        ],
        post_process_selected_prompt_id: Some("p".to_string()),
        post_process_actions: vec![],
        history_limit: 5,
        recording_retention_period: RecordingRetentionPeriod::Never,
    }
}

fn call() -> ChatCall {
    ChatCall {
        provider: provider("shaped", true),
        api_key: "k".to_string(),
        model: "m".to_string(),
        user_content: "fallback".to_string(),
        system_prompt: None,
        json_schema: None,
    }
}

#[test]
fn invisible_characters_are_stripped() {
    assert_eq!(strip_invisible_chars("a\u{200B}b\u{200C}\u{200D}c\u{FEFF}"), "abc");
    assert_eq!(strip_invisible_chars("\u{200B}"), "");
    assert_eq!(strip_invisible_chars(" a\u{200A}\u{200E}ä "), " a\u{200A}\u{200E}ä ");
}

#[test]
fn system_prompt_loses_placeholder() {
    assert_eq!(build_system_prompt("Fix this: ${output}\n"), "Fix this:");
    assert_eq!(build_system_prompt("a ${output} b${output}"), "a  b");
    assert_eq!(build_system_prompt(" ${output} "), "");
    assert_eq!(build_system_prompt("${out${output}put}"), "${output}");
}

#[test]
fn apple_request_reads_token_limit() {
    assert!(call_apple_intelligence(false, "s", "u", "5").is_none());
    let request = call_apple_intelligence(true, "s", "u", " 512\n").unwrap();
    assert_eq!(request.system_prompt, "s");
    assert_eq!(request.user_content, "u");
    assert_eq!(request.token_limit, 512);
    assert_eq!(call_apple_intelligence(true, "s", "u", "on-device").unwrap().token_limit, 0);
    assert_eq!(call_apple_intelligence(true, "s", "u", "-3").unwrap().token_limit, -3);
}

#[test]
fn apple_answer_must_hold_text() {
    assert_eq!(apple_outcome(Ok(" a\u{200B} ".to_string())), Some(" a ".to_string()));
    assert_eq!(apple_outcome(Ok(" \n".to_string())), None);
    assert_eq!(apple_outcome(Err("no".to_string())), None);
    assert_eq!(apple_outcome(Ok("\u{200B}".to_string())), Some(String::new()));
}

#[test]
fn schema_is_exact() {
    let expected: serde_json::Value = serde_json::from_str(
        "{\"type\": \"object\", \"properties\": {\"transcription\": {\"type\": \"string\", \"description\": \"The cleaned and processed transcription text\"}}, \"required\": [\"transcription\"], \"additionalProperties\": false}",
    )
    .unwrap();
    assert_eq!(transcription_schema(), expected);
}

#[test]
fn nothing_to_ask_with() {
    let finished = |settings: &AppSettings| {
        matches!(
            post_process_transcription(settings, "hello", true),
            TextStep::Finished(None)
        )
    };
    assert!(finished(&settings("missing", "p ${output}")));
    assert!(finished(&settings("blank", "p ${output}")));
    assert!(finished(&settings("plain", " \n")));
    let mut unselected = settings("plain", "p");
    unselected.post_process_selected_prompt_id = None;
    assert!(finished(&unselected));
    let mut unknown = settings("plain", "p");
    unknown.post_process_selected_prompt_id = Some("gone".to_string());
    assert!(finished(&unknown));
}

#[test]
fn plain_provider_gets_plain_question() {
    match post_process_transcription(&settings("plain", "Fix ${output}!"), "hello", false) {
        TextStep::AskLegacy(call) => {
            assert_eq!(call.provider.id, "plain");
            assert_eq!(call.api_key, "");
            assert_eq!(call.model, "m-plain");
            assert_eq!(call.user_content, "Fix hello!");
            assert!(call.system_prompt.is_none());
            assert!(call.json_schema.is_none());
        }
        _ => panic!("another step"),
    }
}

#[test]
fn structured_provider_gets_schema_and_fallback() {
    match post_process_transcription(&settings("shaped", "Fix ${output}!"), "hello", false) {
        TextStep::AskStructured { call, fallback } => {
            assert_eq!(call.api_key, "k");
            assert_eq!(call.model, "m-shaped");
            assert_eq!(call.user_content, "hello");
            assert_eq!(call.system_prompt, Some("Fix !".to_string()));
            assert_eq!(call.json_schema, Some(transcription_schema()));
            assert_eq!(fallback.api_key, "k");
            assert_eq!(fallback.user_content, "Fix hello!");
            assert!(fallback.system_prompt.is_none());
        }
        _ => panic!("another step"),
    }
}

#[test]
fn apple_is_asked_where_supported() {
    let settings = settings(APPLE_INTELLIGENCE_PROVIDER_ID, "Fix ${output}!");
    match post_process_transcription(&settings, "hello", true) {
        TextStep::AskApple { system_prompt, user_content, model } => {
            assert_eq!(system_prompt, "Fix !");
            assert_eq!(user_content, "hello");
            assert_eq!(model, " 512 ");
        }
        _ => panic!("another step"),
    }
    assert!(matches!(
        post_process_transcription(&settings, "hello", false),
        TextStep::Finished(None)
    ));
}

#[test]
fn action_takes_its_own_provider_and_model() {
    let settings = settings("plain", "unused");
    match process_action(&settings, "hello", "Do ${output}", Some("own"), Some("shaped"), false) {
        TextStep::AskAction(call) => {
            assert_eq!(call.provider.id, "shaped");
            assert_eq!(call.api_key, "k");
            assert_eq!(call.model, "own");
            assert_eq!(call.user_content, "Do hello");
            assert_eq!(call.system_prompt, Some(ACTION_SYSTEM_PROMPT.to_string()));
            assert!(call.json_schema.is_none());
        }
        _ => panic!("another step"),
    }
}

#[test]
fn action_falls_back_to_active_provider() {
    let settings = settings("plain", "unused");
    for provider_id in [None, Some(""), Some("gone")] {
        match process_action(&settings, "hello", "Do", Some(" "), provider_id, false) {
            TextStep::AskAction(call) => {
                assert_eq!(call.provider.id, "plain");
                assert_eq!(call.model, "m-plain");
                assert_eq!(call.user_content, "Do\n\nhello");
            }
            _ => panic!("another step"),
        }
    }
}

#[test]
fn action_without_provider_or_model_ends() {
    let settings_without = settings("missing", "unused");
    assert!(matches!(
        process_action(&settings_without, "hello", "Do", Some("own"), Some("gone"), true),
        TextStep::Finished(None)
    ));
    assert!(matches!(
        process_action(&settings("blank", "unused"), "hello", "Do", None, None, true),
        TextStep::Finished(None)
    ));
}

#[test]
fn action_on_the_device_needs_no_model() {
    let mut settings = settings(APPLE_INTELLIGENCE_PROVIDER_ID, "unused");
    settings.post_process_models = TextMap::new();
    match process_action(&settings, "hello", "Do ${output}", None, None, true) {
        TextStep::AskApple { system_prompt, user_content, model } => {
            assert_eq!(system_prompt, "Do hello");
            assert_eq!(user_content, "hello");
            assert_eq!(model, "");
        }
        _ => panic!("another step"),
    }
    assert!(matches!(
        process_action(&settings, "hello", "Do ${output}", None, None, false),
        TextStep::Finished(None)
    ));
}

#[test]
fn structured_answer_yields_its_field() {
    let reply = Ok(Some("{\"transcription\": \"a\\u200Bb\"}".to_string()));
    assert!(matches!(
        structured_outcome(reply, call()),
        TextStep::Finished(Some(found)) if found == "ab"
    ));
}

#[test]
fn structured_answer_without_field_is_kept_whole() {
    let reply = Ok(Some("{\"text\": \"a\u{200B}b\"}".to_string()));
    assert!(matches!(
        structured_outcome(reply, call()),
        TextStep::Finished(Some(found)) if found == "{\"text\": \"ab\"}"
    ));
    let reply = Ok(Some("{\"transcription\": 3}".to_string()));
    assert!(matches!(
        structured_outcome(reply, call()),
        TextStep::Finished(Some(found)) if found == "{\"transcription\": 3}"
    ));
}

#[test]
fn structured_failure_falls_back() {
    for reply in [Ok(Some("just text".to_string())), Err("500".to_string())] {
        match structured_outcome(reply, call()) {
            TextStep::AskLegacy(fallback) => assert_eq!(fallback.user_content, "fallback"),
            _ => panic!("another step"),
        }
    }
    assert!(matches!(structured_outcome(Ok(None), call()), TextStep::Finished(None)));
}

#[test]
fn document_of_a_structured_answer() {
    let document: serde_json::Value =
        serde_json::from_str("{\"transcription\": \"x\"}").unwrap();
    assert_eq!(text_of_document(&document, "whole"), "x");
    let document: serde_json::Value = serde_json::from_str("[]").unwrap();
    assert_eq!(text_of_document(&document, "whole"), "whole");
}

#[test]
fn plain_and_action_answers() {
    let content = || Ok(Some("a\u{FEFF}".to_string()));
    assert_eq!(legacy_outcome(content()), Some("a".to_string()));
    assert_eq!(legacy_outcome(Ok(Some(String::new()))), Some(String::new()));
    assert_eq!(legacy_outcome(Ok(None)), None);
    assert_eq!(legacy_outcome(Err("e".to_string())), None);
    assert_eq!(action_outcome(content()), Some("a".to_string()));
    assert_eq!(action_outcome(Ok(Some(String::new()))), None);
    assert_eq!(action_outcome(Ok(None)), None);
    assert_eq!(action_outcome(Err("e".to_string())), None);
}

#[test]
fn question_becomes_a_request() {
    let step = post_process_transcription(&settings("shaped", "Fix ${output}!"), "hello", false);
    let (call, fallback) = match step {
        TextStep::AskStructured { call, fallback } => (call, fallback),
        _ => panic!("another step"),
    };
    match call.clone().dispatch() {
        Ok(ChatDispatch::Http { url, headers, body }) => {
            assert_eq!(url, "https://example.org/chat/completions");
            assert_eq!(headers.get("authorization").unwrap(), "Bearer k");
            assert_eq!(body.model, "m-shaped");
            assert_eq!(body.messages.len(), 2);
            assert_eq!(body.messages[0].content, "Fix !");
            assert_eq!(body.messages[1].content, "hello");
            let format = body.response_format.unwrap();
            assert_eq!(format.json_schema.schema, transcription_schema());
        }
        _ => panic!("not sent by HTTP"),
    }
    match fallback.dispatch() {
        Ok(ChatDispatch::Http { body, .. }) => {
            assert_eq!(body.messages.len(), 1);
            assert_eq!(body.messages[0].content, "Fix hello!");
            assert!(body.response_format.is_none());
        }
        _ => panic!("not sent by HTTP"),
    }
}
