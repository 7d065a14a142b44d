use phraser::settings::{
    clone_opt, get_or_empty, AppSettings, PostProcessAction, PostProcessPrompt,
    PostProcessProvider, RecordingRetentionPeriod, TextMap,
};

#[test]
fn text_map_keeps_the_last_value() {
    let mut map: TextMap<String> = TextMap::new();
    assert_eq!(get_or_empty(&map, "a"), "");
    map.insert("a".to_string(), "1".to_string());
    map.insert("b".to_string(), "2".to_string());
    map.insert("a".to_string(), "3".to_string());
    assert_eq!(get_or_empty(&map, "a"), "3");
    assert_eq!(map.get("b"), Some(&"2".to_string()));
    assert!(map.contains_key("b"));
    assert!(!map.contains_key("A"));
}

fn named(id: &str, label: &str) -> PostProcessProvider {
    PostProcessProvider {
        id: id.to_string(),
        label: label.to_string(),
        base_url: String::new(),
        allow_base_url_edit: false,
        requires_api_key: false,
        models_endpoint: Some("/models".to_string()),
        supports_structured_output: false,
    }
}

#[test]
fn lookups_find_the_first() {
    let settings = AppSettings {
        always_on_microphone: false,
        selected_language: String::new(),
        long_audio_model: None,
        post_process_provider_id: "b".to_string(),
        post_process_providers: vec![named("a", "A"), named("b", "B1"), named("b", "B2")],
        post_process_models: TextMap::new(),
        post_process_api_keys: TextMap::new(),
        post_process_prompts: vec![PostProcessPrompt {
            id: "p".to_string(),
            name: "P".to_string(),
            prompt: "text".to_string(),
        }],
        post_process_selected_prompt_id: Some("p".to_string()),
        post_process_actions: vec![PostProcessAction {
            key: 4,
            name: "N".to_string(),
            prompt: "x".to_string(),
            model: Some("m".to_string()),
            provider_id: None,
        }],
        history_limit: 0,
        recording_retention_period: RecordingRetentionPeriod::Days3,
    };
    assert_eq!(settings.active_post_process_provider().unwrap().label, "B1");
    assert_eq!(settings.post_process_provider("a").unwrap().clone().label, "A");
    assert!(settings.post_process_provider("c").is_none());
    assert_eq!(settings.selected_prompt(), Some("text".to_string()));
    let action = settings.action_for_key(4).unwrap();
    assert_eq!(action.name, "N");
    assert_eq!(clone_opt(&action.model), Some("m".to_string()));
    assert!(settings.action_for_key(5).is_none());
}
