use phraser::chinese::maybe_convert_chinese_variant;
use phraser::pipeline::{build_processed_text, route_text, ModelReply, TextPipeline};
use phraser::post_process::TextStep;
use phraser::settings::{
    AppSettings, PostProcessAction, PostProcessPrompt, PostProcessProvider,
    RecordingRetentionPeriod, TextMap, LANG_SIMPLIFIED_CHINESE, LANG_TRADITIONAL_CHINESE,
};

fn settings_in(language: &str, structured: bool) -> AppSettings {
    let mut models = TextMap::new();
    models.insert("openai".to_string(), "gpt".to_string());
    AppSettings {
        always_on_microphone: false,
        selected_language: language.to_string(),
        long_audio_model: None,
        post_process_provider_id: "openai".to_string(),
        post_process_providers: vec![PostProcessProvider {
            id: "openai".to_string(),
            label: "OpenAI".to_string(),
            base_url: "https://api.openai.com/v1".to_string(),
            allow_base_url_edit: false,
            requires_api_key: true,
            models_endpoint: None,
            supports_structured_output: structured,
        }],
        post_process_models: models,
        post_process_api_keys: TextMap::new(),
        post_process_prompts: vec![PostProcessPrompt {
            id: "p".to_string(),
            name: "P".to_string(),
            prompt: "Fix ${output}".to_string(),
        }],
        post_process_selected_prompt_id: Some("p".to_string()),
        post_process_actions: vec![],
        history_limit: 5,
        recording_retention_period: RecordingRetentionPeriod::Never,
    }
}

fn shout() -> PostProcessAction {
    PostProcessAction {
        key: 1,
        name: "Shout".to_string(),
        prompt: "Shout".to_string(),
        model: None,
        provider_id: None,
    }
}

fn chat(content: &str) -> ModelReply {
    ModelReply::Chat(Ok(Some(content.to_string())))
}

fn parts(pipeline: &TextPipeline) -> (String, Option<String>, Option<String>) {
    let result = pipeline.result().unwrap();
    (result.final_text, result.post_processed_text, result.post_process_prompt)
}

#[test]
fn chinese_is_converted_both_ways() {
    let simplified = settings_in(LANG_SIMPLIFIED_CHINESE, false);
    assert_eq!(
        maybe_convert_chinese_variant(&simplified, "滑鼠"),
        Some("鼠标".to_string())
    );
    let traditional = settings_in(LANG_TRADITIONAL_CHINESE, false);
    assert_eq!(
        maybe_convert_chinese_variant(&traditional, "鼠标"),
        Some("滑鼠".to_string())
    );
    assert_eq!(maybe_convert_chinese_variant(&settings_in("en", false), "鼠标"), None);
}

#[test]
fn nothing_wanted_keeps_the_transcription() {
    let pipeline = build_processed_text(&settings_in("en", false), "hello", None, false, false);
    assert_eq!(parts(&pipeline), ("hello".to_string(), None, None));
}

#[test]
fn conversion_alone_is_recorded() {
    let settings = settings_in(LANG_TRADITIONAL_CHINESE, false);
    let pipeline = build_processed_text(&settings, "鼠标", None, false, false);
    assert_eq!(parts(&pipeline), ("滑鼠".to_string(), Some("滑鼠".to_string()), None));
    let pipeline = build_processed_text(&settings, "abc", None, false, false);
    assert_eq!(parts(&pipeline), ("abc".to_string(), None, None));
}

#[test]
fn converted_text_is_what_is_asked_about() {
    let settings = settings_in("en", false);
    let pipeline =
        route_text(&settings, "raw", Some("converted".to_string()), None, true, false);
    match &pipeline.step {
        TextStep::AskLegacy(call) => assert_eq!(call.user_content, "Fix converted"),
        _ => panic!("another step"),
    }
    assert!(pipeline.result().is_none());
    let done = pipeline.advance(chat("fixed"));
    assert_eq!(
        parts(&done),
        ("fixed".to_string(), Some("fixed".to_string()), Some("Fix ${output}".to_string()))
    );
}

#[test]
fn action_takes_precedence() {
    let settings = settings_in("en", false);
    let pipeline = build_processed_text(&settings, "hello", Some(shout()), true, false);
    match &pipeline.step {
        TextStep::AskAction(call) => assert_eq!(call.user_content, "Shout\n\nhello"),
        _ => panic!("another step"),
    }
    let done = pipeline.advance(chat("HELLO\u{200B}"));
    assert_eq!(
        parts(&done),
        ("HELLO".to_string(), Some("HELLO".to_string()), Some("Shout".to_string()))
    );
}

#[test]
fn two_failures_keep_the_converted_text() {
    let settings = settings_in("en", true);
    let pipeline =
        route_text(&settings, "raw", Some("converted".to_string()), None, true, false);
    assert!(matches!(pipeline.step, TextStep::AskStructured { .. }));
    let pipeline = pipeline.advance(ModelReply::Chat(Err("500".to_string())));
    assert!(matches!(pipeline.step, TextStep::AskLegacy(_)));
    let done = pipeline.advance(ModelReply::Chat(Ok(None)));
    assert_eq!(parts(&done), ("converted".to_string(), Some("converted".to_string()), None));
}

#[test]
fn fallback_may_succeed() {
    let settings = settings_in("en", true);
    let pipeline = build_processed_text(&settings, "raw", None, true, false);
    let pipeline = pipeline.advance(chat("not a document"));
    let done = pipeline.advance(chat("fixed"));
    assert_eq!(
        parts(&done),
        ("fixed".to_string(), Some("fixed".to_string()), Some("Fix ${output}".to_string()))
    );
    let pipeline = build_processed_text(&settings, "raw", None, true, false);
    let done = pipeline.advance(chat("{\"transcription\": \"fixed\"}"));
    assert_eq!(parts(&done).0, "fixed");
}

#[test]
fn other_replies_are_passed_over() {
    let settings = settings_in("en", false);
    let pipeline = build_processed_text(&settings, "raw", None, true, false);
    let reply = ModelReply::Apple(Ok("x".to_string()));
    assert!(!pipeline.answered_by(&reply));
    let pipeline = pipeline.advance(reply);
    assert!(pipeline.result().is_none());
    let done = pipeline.advance(chat("a"));
    assert!(!done.answered_by(&chat("b")));
    let done = done.advance(chat("b"));
    assert_eq!(parts(&done).0, "a");
}

#[test]
fn device_may_be_unavailable() {
    let mut settings = settings_in("en", true);
    settings.post_process_providers[0].id = "apple_intelligence".to_string();
    settings.post_process_provider_id = "apple_intelligence".to_string();
    settings.post_process_models.insert("apple_intelligence".to_string(), "0".to_string());
    let pipeline = build_processed_text(&settings, "raw", None, true, true);
    assert!(matches!(pipeline.step, TextStep::AskApple { .. }));
    let done = pipeline.advance(ModelReply::Unavailable);
    assert_eq!(parts(&done), ("raw".to_string(), None, None));
    let pipeline = build_processed_text(&settings, "raw", None, true, true);
    let done = pipeline.advance(ModelReply::Apple(Ok("fixed".to_string())));
    assert_eq!(parts(&done).0, "fixed");
}
